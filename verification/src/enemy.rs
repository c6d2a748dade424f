//! Autonomous enemies. An enemy spawns at the viewport's right edge at a
//! random height clamped into an inset band, drifts left at a randomized
//! speed, fires on a wall-clock interval, and despawns once it has fully
//! trailed off the left edge.

use vstd::prelude::*;
use crate::bullet::{Bullet, Side};
use crate::entity::{EntityBase, EntityEvent, Rect, GEOM_BOUND};
use crate::texture::{ComponentTexture, DrawCmd};

verus! {

/// Base leftward drift speed, in pixels per frame.
pub const ENEMY_SPEED: i32 = 4;

/// The random addition to the drift speed lies in `[0, ENEMY_SPEED_JITTER)`.
pub const ENEMY_SPEED_JITTER: u32 = 10;

/// Enemies render rotated to face the player.
pub const ENEMY_ANGLE_DEG: i32 = -90;

/// Horizontal speed of an enemy bullet, in pixels per frame (leftward).
pub const ENEMY_BULLET_SPEED: i32 = 10;

/// Vertical offset of an enemy bullet from the enemy's position.
pub const ENEMY_BULLET_OFFSET: i32 = 25;

/// Wall-clock milliseconds between two enemy shots.
pub const ENEMY_FIRING_INTERVAL_MS: u64 = 800;

/// A spawned enemy's vertical position is clamped into
/// `[SPAWN_INSET, viewport.h - SPAWN_INSET]`.
pub const SPAWN_INSET: i32 = 100;

#[derive(Clone, Copy, PartialEq, Eq, Structural, Debug)]
pub struct Enemy {
    pub base: EntityBase,
    /// Wall-clock reading (milliseconds) of the last shot. Enemy fire is
    /// time-based, not frame-based, on purpose: the cadence must not change
    /// under variable frame pacing.
    pub firing_ticks: u64,
    pub engine_texture: ComponentTexture,
    pub body_texture: ComponentTexture,
    pub projectile_texture: ComponentTexture,
}

impl Enemy {
    pub open spec fn wf(self) -> bool {
        &&& self.base.wf()
        &&& 0 <= self.base.y <= GEOM_BOUND
        &&& self.engine_texture.wf()
        &&& self.body_texture.wf()
        &&& self.projectile_texture.wf()
    }

    /// The enemy that a pair of random draws determines: vertical position
    /// `y_draw % viewport.h` clamped into the inset band, drift speed
    /// `ENEMY_SPEED` plus `speed_draw % ENEMY_SPEED_JITTER`, body sized from
    /// its sprite, placed at the right edge, with the fire clock starting at
    /// `now_ms`.
    pub open spec fn spec_from_draws(
        viewport: Rect,
        now_ms: u64,
        y_draw: u32,
        speed_draw: u32,
        engine_texture: ComponentTexture,
        body_texture: ComponentTexture,
        projectile_texture: ComponentTexture,
    ) -> Enemy {
        let y0 = y_draw as int % viewport.h as int;
        let y = if y0 < SPAWN_INSET {
            SPAWN_INSET as int
        } else if y0 > viewport.h - SPAWN_INSET {
            viewport.h - SPAWN_INSET
        } else {
            y0
        };
        Enemy {
            base: EntityBase {
                x: (viewport.x + viewport.w) as i32,
                y: y as i32,
                width: body_texture.frame_width() as i32,
                height: body_texture.height as i32,
                dx: (-(ENEMY_SPEED + speed_draw as int % ENEMY_SPEED_JITTER as int)) as i32,
                dy: 0,
                viewport,
                valid: true,
            },
            firing_ticks: now_ms,
            engine_texture,
            body_texture,
            projectile_texture,
        }
    }

    /// Deterministic core of enemy construction: everything after the two
    /// random draws, verified for every value of the draws.
    pub fn from_draws(
        viewport: Rect,
        now_ms: u64,
        y_draw: u32,
        speed_draw: u32,
        engine_texture: ComponentTexture,
        body_texture: ComponentTexture,
        projectile_texture: ComponentTexture,
    ) -> (e: Enemy)
        requires
            viewport.wf(),
            viewport.h >= 2 * SPAWN_INSET,
            engine_texture.wf(),
            body_texture.wf(),
            projectile_texture.wf(),
        ensures
            e == Enemy::spec_from_draws(
                viewport,
                now_ms,
                y_draw,
                speed_draw,
                engine_texture,
                body_texture,
                projectile_texture,
            ),
            e.wf(),
            SPAWN_INSET <= e.base.y <= viewport.h - SPAWN_INSET,
            -(ENEMY_SPEED + ENEMY_SPEED_JITTER) < e.base.dx <= -ENEMY_SPEED,
    {
        proof {
            vstd::arithmetic::div_mod::lemma_mod_bound(y_draw as int, viewport.h as int);
            vstd::arithmetic::div_mod::lemma_mod_bound(
                speed_draw as int,
                ENEMY_SPEED_JITTER as int,
            );
        }
        let mut y: i32 = (y_draw % (viewport.h as u32)) as i32;
        if y < SPAWN_INSET {
            y = SPAWN_INSET;
        } else if y > viewport.h - SPAWN_INSET {
            y = viewport.h - SPAWN_INSET;
        }
        let (width, height) = body_texture.size();
        Enemy {
            base: EntityBase {
                x: viewport.x + viewport.w,
                y,
                width: width as i32,
                height: height as i32,
                dx: -(ENEMY_SPEED + (speed_draw % ENEMY_SPEED_JITTER) as i32),
                dy: 0,
                viewport,
                valid: true,
            },
            firing_ticks: now_ms,
            engine_texture,
            body_texture,
            projectile_texture,
        }
    }

    /// A freshly spawned enemy. The vertical position and the drift speed
    /// are random; the contract states what holds of every draw.
    pub fn new(
        viewport: Rect,
        now_ms: u64,
        engine_texture: ComponentTexture,
        body_texture: ComponentTexture,
        projectile_texture: ComponentTexture,
    ) -> (e: Enemy)
        requires
            viewport.wf(),
            viewport.h >= 2 * SPAWN_INSET,
            engine_texture.wf(),
            body_texture.wf(),
            projectile_texture.wf(),
        ensures
            e.wf(),
            e.base.x == viewport.x + viewport.w,
            SPAWN_INSET <= e.base.y <= viewport.h - SPAWN_INSET,
            -(ENEMY_SPEED + ENEMY_SPEED_JITTER) < e.base.dx <= -ENEMY_SPEED,
            e.base.dy == 0,
            e.base.width == body_texture.frame_width(),
            e.base.height == body_texture.height,
            e.base.viewport == viewport,
            e.base.valid,
            e.firing_ticks == now_ms,
            e.engine_texture == engine_texture,
            e.body_texture == body_texture,
            e.projectile_texture == projectile_texture,
    {
        let y_draw = rand::random::<u32>();
        let speed_draw = rand::random::<u32>();
        Enemy::from_draws(
            viewport,
            now_ms,
            y_draw,
            speed_draw,
            engine_texture,
            body_texture,
            projectile_texture,
        )
    }

    /// The bullet an enemy emits: at the enemy's position offset vertically,
    /// sized from the projectile sprite, flying left at the fixed bullet
    /// speed, tagged with the enemy side.
    pub open spec fn spec_spawn_bullet(self, offset: int) -> Bullet {
        Bullet {
            base: EntityBase {
                x: self.base.x,
                y: (self.base.y + offset) as i32,
                width: self.projectile_texture.frame_width() as i32,
                height: self.projectile_texture.height as i32,
                dx: (-(ENEMY_BULLET_SPEED as int)) as i32,
                dy: 0,
                viewport: self.base.viewport,
                valid: true,
            },
            side: Side::Enemy,
            angle_deg: ENEMY_ANGLE_DEG,
            texture: self.projectile_texture,
        }
    }

    pub fn spawn_bullet(&self, offset: i32) -> (b: Bullet)
        requires
            self.wf(),
            -SPAWN_INSET <= offset <= SPAWN_INSET,
        ensures
            b == self.spec_spawn_bullet(offset as int),
            b.wf(),
    {
        let (width, height) = self.projectile_texture.size();
        let base = EntityBase {
            x: self.base.x,
            y: self.base.y + offset,
            width: width as i32,
            height: height as i32,
            dx: -ENEMY_BULLET_SPEED,
            dy: 0,
            viewport: self.base.viewport,
            valid: true,
        };
        Bullet::new(base, Side::Enemy, ENEMY_ANGLE_DEG, self.projectile_texture)
    }

    /// The enemy one frame later, and the event it emits. The horizontal
    /// step despawns the enemy when rejected (it has fully left the screen);
    /// a shot is emitted iff the firing interval has elapsed on the wall
    /// clock, which also resets the fire clock to `now`.
    pub open spec fn spec_update(self, now: u64) -> (Enemy, EntityEvent) {
        let stepped = if self.base.x_accepts(self.base.x + self.base.dx) {
            Enemy { base: self.base.after_step_x(), ..self }
        } else {
            Enemy { base: EntityBase { valid: false, ..self.base }, ..self }
        };
        if now >= self.firing_ticks + ENEMY_FIRING_INTERVAL_MS {
            (
                Enemy { firing_ticks: now, ..stepped },
                EntityEvent::SpawnBullet(stepped.spec_spawn_bullet(ENEMY_BULLET_OFFSET as int)),
            )
        } else {
            (stepped, EntityEvent::Empty)
        }
    }

    /// One frame of enemy behaviour.
    pub fn update(&mut self, now: u64) -> (ev: EntityEvent)
        requires
            old(self).wf(),
        ensures
            *final(self) == old(self).spec_update(now).0,
            ev == old(self).spec_update(now).1,
            final(self).wf(),
            !old(self).base.valid ==> !final(self).base.valid,
    {
        if !self.base.update_x() {
            self.base.valid = false;
        }
        if now >= self.firing_ticks && now - self.firing_ticks >= ENEMY_FIRING_INTERVAL_MS {
            let bullet = self.spawn_bullet(ENEMY_BULLET_OFFSET);
            self.firing_ticks = now;
            return EntityEvent::SpawnBullet(bullet);
        }
        EntityEvent::Empty
    }

    /// The enemy after a render call: both animations advance.
    pub open spec fn spec_rendered(self) -> Enemy {
        Enemy {
            engine_texture: self.engine_texture.advanced(),
            body_texture: self.body_texture.advanced(),
            ..self
        }
    }

    /// The two drawing requests an enemy makes each frame: engine layer,
    /// then body over it.
    pub open spec fn spec_render_cmds(self) -> Seq<DrawCmd> {
        seq![
            self.engine_texture.draw_cmd(
                self.engine_texture.current_frame as int,
                self.base.x as int,
                self.base.y as int,
                ENEMY_ANGLE_DEG as int,
            ),
            self.body_texture.draw_cmd(
                self.body_texture.current_frame as int,
                self.base.x as int,
                self.base.y as int,
                ENEMY_ANGLE_DEG as int,
            ),
        ]
    }

    pub fn render(&mut self) -> (cmds: Vec<DrawCmd>)
        requires
            old(self).wf(),
        ensures
            cmds@ == old(self).spec_render_cmds(),
            *final(self) == old(self).spec_rendered(),
            final(self).wf(),
    {
        let mut cmds: Vec<DrawCmd> = Vec::new();
        let engine_cmd = self.engine_texture.render((self.base.x, self.base.y), ENEMY_ANGLE_DEG);
        cmds.push(engine_cmd);
        let body_cmd = self.body_texture.render((self.base.x, self.base.y), ENEMY_ANGLE_DEG);
        cmds.push(body_cmd);
        proof {
            assert(cmds@ =~= old(self).spec_render_cmds());
        }
        cmds
    }

    pub fn valid(&self) -> (r: bool)
        ensures
            r == self.base.valid,
    {
        self.base.valid
    }

    pub fn is_enemy(&self) -> (r: bool)
        ensures
            r,
    {
        true
    }
}

} // verus!
