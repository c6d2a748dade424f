//! The player's ship: input-driven movement clamped to the viewport, and a
//! frame-counted fire cooldown. Holding fire emits one bullet every
//! `firing_speed` frames, with the lateral spawn offset alternating between
//! the two gun barrels; releasing and re-pressing fire carries no residual
//! cooldown over.

use vstd::prelude::*;
use crate::bullet::{Bullet, Side};
use crate::entity::{EntityBase, EntityEvent, InputEvent, Key, Rect, GEOM_BOUND};
use crate::texture::{ComponentTexture, DrawCmd};

verus! {

/// Movement speed on both axes, in pixels per frame.
pub const PLAYER_SPEED: i32 = 8;

/// Where the ship starts, in viewport pixels.
pub const PLAYER_START_X: i32 = 100;

/// Where the ship starts, in viewport pixels.
pub const PLAYER_START_Y: i32 = 100;

/// Frames between two shots while fire is held.
pub const PLAYER_FIRING_PERIOD: usize = 16;

/// Lateral bullet offset of the second gun barrel, in pixels.
pub const BARREL_OFFSET: i32 = 30;

/// Bullet spawn offsets handed to `spawn_bullet` stay within this bound.
pub const BULLET_OFFSET_BOUND: i32 = 100;

#[derive(Clone, Copy, PartialEq, Eq, Structural, Debug)]
pub struct Player {
    pub base: EntityBase,
    pub engine_texture: ComponentTexture,
    pub engine_base_texture: ComponentTexture,
    pub idle_texture: ComponentTexture,
    pub body_texture: ComponentTexture,
    pub projectile_texture: ComponentTexture,
    pub weapon_texture: ComponentTexture,
    /// Cooldown period: frames between shots, and the bullet speed.
    pub firing_speed: usize,
    /// Cooldown counter, counting up modulo `firing_speed`.
    pub cd: usize,
    /// Fire intent, set and cleared by input.
    pub firing: bool,
    /// Whether a new bullet may be emitted this frame.
    pub firing_ready: bool,
    /// Alternating-barrel flag: flipped on every shot.
    pub firing_left: bool,
    pub left: bool,
    pub right: bool,
    pub up: bool,
    pub down: bool,
}

impl Player {
    pub open spec fn wf(self) -> bool {
        &&& self.base.wf()
        &&& -2 * GEOM_BOUND <= self.base.y <= 2 * GEOM_BOUND
        &&& 1 <= self.firing_speed <= GEOM_BOUND
        &&& self.cd < self.firing_speed
        &&& self.engine_texture.wf()
        &&& self.engine_base_texture.wf()
        &&& self.idle_texture.wf()
        &&& self.body_texture.wf()
        &&& self.projectile_texture.wf()
        &&& self.weapon_texture.wf()
    }

    /// A freshly created ship: at the start position, idle, with the fire
    /// cooldown ready so the first press shoots immediately.
    pub fn new(
        viewport: Rect,
        engine_texture: ComponentTexture,
        engine_base_texture: ComponentTexture,
        idle_texture: ComponentTexture,
        weapon_texture: ComponentTexture,
        body_texture: ComponentTexture,
        projectile_texture: ComponentTexture,
    ) -> (p: Player)
        requires
            viewport.wf(),
            engine_texture.wf(),
            engine_base_texture.wf(),
            idle_texture.wf(),
            weapon_texture.wf(),
            body_texture.wf(),
            projectile_texture.wf(),
        ensures
            p == (Player {
                base: EntityBase {
                    x: PLAYER_START_X,
                    y: PLAYER_START_Y,
                    width: 0,
                    height: 0,
                    dx: PLAYER_SPEED,
                    dy: PLAYER_SPEED,
                    viewport,
                    valid: true,
                },
                engine_texture,
                engine_base_texture,
                idle_texture,
                body_texture,
                projectile_texture,
                weapon_texture,
                firing_speed: PLAYER_FIRING_PERIOD,
                cd: 0,
                firing: false,
                firing_ready: true,
                firing_left: false,
                left: false,
                right: false,
                up: false,
                down: false,
            }),
            p.wf(),
    {
        let base = EntityBase {
            x: PLAYER_START_X,
            y: PLAYER_START_Y,
            width: 0,
            height: 0,
            dx: PLAYER_SPEED,
            dy: PLAYER_SPEED,
            viewport,
            valid: true,
        };
        Player {
            base,
            engine_texture,
            engine_base_texture,
            idle_texture,
            body_texture,
            projectile_texture,
            weapon_texture,
            firing_speed: PLAYER_FIRING_PERIOD,
            cd: 0,
            firing: false,
            firing_ready: true,
            firing_left: false,
            left: false,
            right: false,
            up: false,
            down: false,
        }
    }

    /// The bullet the player emits: at the ship's position plus a lateral
    /// offset, sized from the projectile sprite, flying right at
    /// `firing_speed` pixels per frame, tagged with the player side.
    pub open spec fn spec_spawn_bullet(self, offset: int) -> Bullet {
        Bullet {
            base: EntityBase {
                x: self.base.x,
                y: (self.base.y + offset) as i32,
                width: self.projectile_texture.frame_width() as i32,
                height: self.projectile_texture.height as i32,
                dx: self.firing_speed as i32,
                dy: 0,
                viewport: self.base.viewport,
                valid: true,
            },
            side: Side::Player,
            angle_deg: 0,
            texture: self.projectile_texture,
        }
    }

    pub fn spawn_bullet(&self, offset: i32) -> (b: Bullet)
        requires
            self.wf(),
            -BULLET_OFFSET_BOUND <= offset <= BULLET_OFFSET_BOUND,
        ensures
            b == self.spec_spawn_bullet(offset as int),
            b.wf(),
    {
        let (width, height) = self.projectile_texture.size();
        let base = EntityBase {
            x: self.base.x,
            y: self.base.y + offset,
            width: width as i32,
            height: height as i32,
            dx: self.firing_speed as i32,
            dy: 0,
            viewport: self.base.viewport,
            valid: true,
        };
        Bullet::new(base, Side::Player, 0, self.projectile_texture)
    }

    /// The ship after the four movement intents are applied in the fixed
    /// order up, down, left, right, each as one kinematic step.
    pub open spec fn spec_moved(self) -> Player {
        let b0 = self.base;
        let b1 = if self.up { b0.after_step_y_rev() } else { b0 };
        let b2 = if self.down { b1.after_step_y() } else { b1 };
        let b3 = if self.left { b2.after_step_x_rev() } else { b2 };
        let b4 = if self.right { b3.after_step_x() } else { b3 };
        Player { base: b4, ..self }
    }

    /// The cooldown counter after one frame: unchanged while the gun is
    /// ready, else advanced by one modulo the period.
    pub open spec fn spec_ticked_cd(self) -> int {
        if self.firing_ready {
            self.cd as int
        } else {
            (self.cd + 1) % (self.firing_speed as int)
        }
    }

    /// Whether this frame emits a bullet: fire must be held, and the gun
    /// must be ready or become ready as the counter wraps this frame.
    pub open spec fn spec_fires(self) -> bool {
        self.firing && (self.firing_ready || self.spec_ticked_cd() == 0)
    }

    /// The ship one frame later, and the event it emits. Movement first;
    /// then, if fire is held, the cooldown state machine runs: a shot clears
    /// `firing_ready` and flips the barrel, a non-shot frame just advances
    /// the counter.
    pub open spec fn spec_update(self) -> (Player, EntityEvent) {
        let pm = self.spec_moved();
        if !self.firing {
            (pm, EntityEvent::Empty)
        } else {
            let cd1 = self.spec_ticked_cd();
            if self.firing_ready || cd1 == 0 {
                let barrel_left = !self.firing_left;
                let shooter = Player {
                    cd: cd1 as usize,
                    firing_ready: false,
                    firing_left: barrel_left,
                    ..pm
                };
                let offset: int = if barrel_left {
                    0
                } else {
                    BARREL_OFFSET as int
                };
                (shooter, EntityEvent::SpawnBullet(pm.spec_spawn_bullet(offset)))
            } else {
                (Player { cd: cd1 as usize, ..pm }, EntityEvent::Empty)
            }
        }
    }

    /// One frame of player behaviour. The ship's liveness is never touched:
    /// a rejected movement step only leaves it in place.
    pub fn update(&mut self) -> (ev: EntityEvent)
        requires
            old(self).wf(),
        ensures
            *final(self) == old(self).spec_update().0,
            ev == old(self).spec_update().1,
            final(self).wf(),
            final(self).base.valid == old(self).base.valid,
    {
        if self.up {
            self.base.update_y_rev();
        }
        if self.down {
            self.base.update_y();
        }
        if self.left {
            self.base.update_x_rev();
        }
        if self.right {
            self.base.update_x();
        }
        if self.firing {
            if !self.firing_ready {
                self.cd = (self.cd + 1) % self.firing_speed;
                if self.cd == 0 {
                    self.firing_ready = true;
                }
            }
            if self.firing_ready {
                self.firing_ready = false;
                self.firing_left = !self.firing_left;
                let offset: i32 = if self.firing_left {
                    0
                } else {
                    BARREL_OFFSET
                };
                let bullet = self.spawn_bullet(offset);
                return EntityEvent::SpawnBullet(bullet);
            }
            EntityEvent::Empty
        } else {
            EntityEvent::Empty
        }
    }

    pub open spec fn spec_key_down(self, key: Key) -> Player {
        match key {
            Key::Up => Player { up: true, ..self },
            Key::Down => Player { down: true, ..self },
            Key::Left => Player { left: true, ..self },
            Key::Right => Player { right: true, ..self },
            Key::Fire => Player { firing: true, firing_ready: true, cd: 0, ..self },
            Key::Other => self,
        }
    }

    pub open spec fn spec_key_up(self, key: Key) -> Player {
        match key {
            Key::Up => Player { up: false, ..self },
            Key::Down => Player { down: false, ..self },
            Key::Left => Player { left: false, ..self },
            Key::Right => Player { right: false, ..self },
            Key::Fire => Player { firing: false, firing_ready: true, cd: 0, ..self },
            Key::Other => self,
        }
    }

    pub open spec fn spec_handle_event(self, event: InputEvent) -> Player {
        match event {
            InputEvent::KeyDown(key) => self.spec_key_down(key),
            InputEvent::KeyUp(key) => self.spec_key_up(key),
            InputEvent::Quit => self,
        }
    }

    /// A key press sets the matching movement intent; pressing fire also
    /// resets the cooldown so the shot comes out immediately.
    pub fn handle_key_down(&mut self, key: Key)
        requires
            old(self).wf(),
        ensures
            *final(self) == old(self).spec_key_down(key),
            final(self).wf(),
    {
        match key {
            Key::Up => {
                self.up = true;
            }
            Key::Down => {
                self.down = true;
            }
            Key::Left => {
                self.left = true;
            }
            Key::Right => {
                self.right = true;
            }
            Key::Fire => {
                self.firing = true;
                self.firing_ready = true;
                self.cd = 0;
            }
            Key::Other => {}
        }
    }

    /// A key release clears the matching movement intent; releasing fire
    /// resets the cooldown, so no residual cooldown is carried into the
    /// next fire session.
    pub fn handle_key_up(&mut self, key: Key)
        requires
            old(self).wf(),
        ensures
            *final(self) == old(self).spec_key_up(key),
            final(self).wf(),
    {
        match key {
            Key::Up => {
                self.up = false;
            }
            Key::Down => {
                self.down = false;
            }
            Key::Left => {
                self.left = false;
            }
            Key::Right => {
                self.right = false;
            }
            Key::Fire => {
                self.firing = false;
                self.firing_ready = true;
                self.cd = 0;
            }
            Key::Other => {}
        }
    }

    pub fn handle_event(&mut self, event: InputEvent)
        requires
            old(self).wf(),
        ensures
            *final(self) == old(self).spec_handle_event(event),
            final(self).wf(),
    {
        match event {
            InputEvent::KeyDown(key) => self.handle_key_down(key),
            InputEvent::KeyUp(key) => self.handle_key_up(key),
            InputEvent::Quit => {}
        }
    }

    pub open spec fn spec_is_moving(self) -> bool {
        self.up || self.down || self.left || self.right
    }

    pub fn is_moving(&self) -> (r: bool)
        ensures
            r == self.spec_is_moving(),
    {
        self.up || self.down || self.left || self.right
    }

    /// The ship after a render call: hull and engine-base animations always
    /// advance; the weapon animation only while firing; exactly one of the
    /// powering and idle engine effects advances, depending on movement.
    pub open spec fn spec_rendered(self) -> Player {
        let p1 = Player {
            body_texture: self.body_texture.advanced(),
            engine_base_texture: self.engine_base_texture.advanced(),
            ..self
        };
        let p2 = if self.firing {
            Player { weapon_texture: p1.weapon_texture.advanced(), ..p1 }
        } else {
            p1
        };
        if self.spec_is_moving() {
            Player { engine_texture: p2.engine_texture.advanced(), ..p2 }
        } else {
            Player { idle_texture: p2.idle_texture.advanced(), ..p2 }
        }
    }

    /// The four drawing requests a player makes each frame, in paint order:
    /// hull, engine base, weapon (its first frame while not firing, animated
    /// while firing), then the powering engine effect while any movement
    /// intent is active, else the idle effect.
    pub open spec fn spec_render_cmds(self) -> Seq<DrawCmd> {
        let x = self.base.x as int;
        let y = self.base.y as int;
        seq![
            self.body_texture.draw_cmd(self.body_texture.current_frame as int, x, y, 0),
            self.engine_base_texture.draw_cmd(
                self.engine_base_texture.current_frame as int,
                x,
                y,
                0,
            ),
            if self.firing {
                self.weapon_texture.draw_cmd(self.weapon_texture.current_frame as int, x, y, 0)
            } else {
                self.weapon_texture.draw_cmd(0, x, y, 0)
            },
            if self.spec_is_moving() {
                self.engine_texture.draw_cmd(self.engine_texture.current_frame as int, x, y, 0)
            } else {
                self.idle_texture.draw_cmd(self.idle_texture.current_frame as int, x, y, 0)
            },
        ]
    }

    pub fn render(&mut self) -> (cmds: Vec<DrawCmd>)
        requires
            old(self).wf(),
        ensures
            cmds@ == old(self).spec_render_cmds(),
            *final(self) == old(self).spec_rendered(),
            final(self).wf(),
    {
        let mut cmds: Vec<DrawCmd> = Vec::new();
        let pos = (self.base.x, self.base.y);
        let body_cmd = self.body_texture.render(pos, 0);
        cmds.push(body_cmd);
        let engine_base_cmd = self.engine_base_texture.render(pos, 0);
        cmds.push(engine_base_cmd);
        if !self.firing {
            let weapon_cmd = self.weapon_texture.render_nth(0, pos, 0);
            cmds.push(weapon_cmd);
        } else {
            let weapon_cmd = self.weapon_texture.render(pos, 0);
            cmds.push(weapon_cmd);
        }
        if self.is_moving() {
            let engine_cmd = self.engine_texture.render(pos, 0);
            cmds.push(engine_cmd);
        } else {
            let idle_cmd = self.idle_texture.render(pos, 0);
            cmds.push(idle_cmd);
        }
        proof {
            assert(cmds@ =~= old(self).spec_render_cmds());
        }
        cmds
    }

    pub fn valid(&self) -> (r: bool)
        ensures
            r == self.base.valid,
    {
        self.base.valid
    }

    pub fn is_player(&self) -> (r: bool)
        ensures
            r,
    {
        true
    }
}

} // verus!
