//! Axis-aligned kinematic bodies and the closed set of simulated entities.

use vstd::prelude::*;
use crate::bullet::Bullet;
use crate::enemy::Enemy;
use crate::player::Player;
use crate::texture::DrawCmd;

verus! {

/// What an entity's per-frame update may ask of the simulation driver:
/// spawn exactly one new bullet, or nothing.
#[derive(Clone, Copy, PartialEq, Eq, Structural, Debug)]
pub enum EntityEvent {
    SpawnBullet(Bullet),
    Empty,
}

/// Upper bound on viewport coordinates, body sizes and per-frame velocities.
/// Keeps every kinematic computation comfortably inside `i32`.
pub const GEOM_BOUND: i32 = 0x10_0000;

/// Upper bound on the magnitude of a body position. Accepted kinematic steps
/// always land well inside this bound; it is only needed to rule out overflow
/// for bodies constructed far away from the viewport.
pub const POS_BOUND: i32 = 0x100_0000;

/// The keys the simulation reacts to, already decoded from whatever input
/// device the platform layer reads.
#[derive(Clone, Copy, PartialEq, Eq, Structural, Debug)]
pub enum Key {
    Up,
    Down,
    Left,
    Right,
    Fire,
    Other,
}

/// One discrete input event handed to the simulation each frame.
#[derive(Clone, Copy, PartialEq, Eq, Structural, Debug)]
pub enum InputEvent {
    KeyDown(Key),
    KeyUp(Key),
    Quit,
}

/// The rectangular play field that bodies are clamped against.
#[derive(Clone, Copy, PartialEq, Eq, Structural, Debug)]
pub struct Rect {
    pub x: i32,
    pub y: i32,
    pub w: i32,
    pub h: i32,
}

impl Rect {
    pub open spec fn wf(self) -> bool {
        &&& 0 <= self.x <= GEOM_BOUND
        &&& 0 <= self.y <= GEOM_BOUND
        &&& 0 <= self.w <= GEOM_BOUND
        &&& 0 <= self.h <= GEOM_BOUND
    }

    pub fn new(x: i32, y: i32, w: i32, h: i32) -> (r: Rect)
        requires
            0 <= x <= GEOM_BOUND,
            0 <= y <= GEOM_BOUND,
            0 <= w <= GEOM_BOUND,
            0 <= h <= GEOM_BOUND,
        ensures
            r == (Rect { x, y, w, h }),
            r.wf(),
    {
        Rect { x, y, w, h }
    }
}

/// Position, size and velocity of one entity, together with the viewport it
/// is clamped against and its liveness flag. `valid == false` is monotonic:
/// no operation of the library ever resets it to `true`.
#[derive(Clone, Copy, PartialEq, Eq, Structural, Debug)]
pub struct EntityBase {
    pub x: i32,
    pub y: i32,
    pub width: i32,
    pub height: i32,
    pub dx: i32,
    pub dy: i32,
    pub viewport: Rect,
    pub valid: bool,
}

impl EntityBase {
    pub open spec fn wf(self) -> bool {
        &&& self.viewport.wf()
        &&& 0 <= self.width <= GEOM_BOUND
        &&& 0 <= self.height <= GEOM_BOUND
        &&& -GEOM_BOUND <= self.dx <= GEOM_BOUND
        &&& -GEOM_BOUND <= self.dy <= GEOM_BOUND
        &&& -POS_BOUND <= self.x <= POS_BOUND
        &&& -POS_BOUND <= self.y <= POS_BOUND
    }

    /// A candidate x position is accepted iff the body's bounding box would
    /// still overlap the viewport on the x axis.
    pub open spec fn x_accepts(self, new_x: int) -> bool {
        new_x <= self.viewport.x + self.viewport.w && new_x + self.width >= self.viewport.x
    }

    /// A candidate y position is accepted iff the body's bounding box would
    /// still overlap the viewport on the y axis.
    pub open spec fn y_accepts(self, new_y: int) -> bool {
        new_y <= self.viewport.y + self.viewport.h && new_y + self.height >= self.viewport.y
    }

    /// The body after one forward step along x: moved if accepted, else unchanged.
    pub open spec fn after_step_x(self) -> EntityBase {
        if self.x_accepts(self.x + self.dx) {
            EntityBase { x: (self.x + self.dx) as i32, ..self }
        } else {
            self
        }
    }

    /// The body after one forward step along y: moved if accepted, else unchanged.
    pub open spec fn after_step_y(self) -> EntityBase {
        if self.y_accepts(self.y + self.dy) {
            EntityBase { y: (self.y + self.dy) as i32, ..self }
        } else {
            self
        }
    }

    /// The body after one reverse step along x (negated velocity).
    pub open spec fn after_step_x_rev(self) -> EntityBase {
        if self.x_accepts(self.x - self.dx) {
            EntityBase { x: (self.x - self.dx) as i32, ..self }
        } else {
            self
        }
    }

    /// The body after one reverse step along y (negated velocity).
    pub open spec fn after_step_y_rev(self) -> EntityBase {
        if self.y_accepts(self.y - self.dy) {
            EntityBase { y: (self.y - self.dy) as i32, ..self }
        } else {
            self
        }
    }

    /// One forward kinematic step along x. The step is accepted, and the
    /// position mutated, iff the candidate keeps the bounding box overlapping
    /// the viewport on the x axis; a rejected step leaves the body unchanged.
    pub fn update_x(&mut self) -> (moved: bool)
        requires
            old(self).wf(),
        ensures
            moved == old(self).x_accepts(old(self).x + old(self).dx),
            *final(self) == old(self).after_step_x(),
            moved ==> final(self).x <= final(self).viewport.x + final(self).viewport.w
                && final(self).x + final(self).width >= final(self).viewport.x,
            !moved ==> *final(self) == *old(self),
            final(self).wf(),
            final(self).valid == old(self).valid,
    {
        let new_x = self.x + self.dx;
        if new_x <= self.viewport.x + self.viewport.w && new_x + self.width >= self.viewport.x {
            self.x = new_x;
            true
        } else {
            false
        }
    }

    /// One forward kinematic step along y, with the same acceptance rule on
    /// the y axis.
    pub fn update_y(&mut self) -> (moved: bool)
        requires
            old(self).wf(),
        ensures
            moved == old(self).y_accepts(old(self).y + old(self).dy),
            *final(self) == old(self).after_step_y(),
            moved ==> final(self).y <= final(self).viewport.y + final(self).viewport.h
                && final(self).y + final(self).height >= final(self).viewport.y,
            !moved ==> *final(self) == *old(self),
            final(self).wf(),
            final(self).valid == old(self).valid,
    {
        let new_y = self.y + self.dy;
        if new_y <= self.viewport.y + self.viewport.h && new_y + self.height >= self.viewport.y {
            self.y = new_y;
            true
        } else {
            false
        }
    }

    /// One reverse kinematic step along x: the negated velocity with the same
    /// acceptance rule.
    pub fn update_x_rev(&mut self) -> (moved: bool)
        requires
            old(self).wf(),
        ensures
            moved == old(self).x_accepts(old(self).x - old(self).dx),
            *final(self) == old(self).after_step_x_rev(),
            moved ==> final(self).x <= final(self).viewport.x + final(self).viewport.w
                && final(self).x + final(self).width >= final(self).viewport.x,
            !moved ==> *final(self) == *old(self),
            final(self).wf(),
            final(self).valid == old(self).valid,
    {
        let new_x = self.x - self.dx;
        if new_x <= self.viewport.x + self.viewport.w && new_x + self.width >= self.viewport.x {
            self.x = new_x;
            true
        } else {
            false
        }
    }

    /// One reverse kinematic step along y: the negated velocity with the same
    /// acceptance rule.
    pub fn update_y_rev(&mut self) -> (moved: bool)
        requires
            old(self).wf(),
        ensures
            moved == old(self).y_accepts(old(self).y - old(self).dy),
            *final(self) == old(self).after_step_y_rev(),
            moved ==> final(self).y <= final(self).viewport.y + final(self).viewport.h
                && final(self).y + final(self).height >= final(self).viewport.y,
            !moved ==> *final(self) == *old(self),
            final(self).wf(),
            final(self).valid == old(self).valid,
    {
        let new_y = self.y - self.dy;
        if new_y <= self.viewport.y + self.viewport.h && new_y + self.height >= self.viewport.y {
            self.y = new_y;
            true
        } else {
            false
        }
    }
}

/// Every simulated object. The set of variants is closed on purpose: the
/// collision rules are hard-coded to exactly these kinds, so a tagged
/// variant type replaces open-ended dispatch.
#[derive(Clone, Copy, PartialEq, Eq, Structural, Debug)]
pub enum Entity {
    Player(Player),
    Enemy(Enemy),
    Bullet(Bullet),
}

impl Entity {
    pub open spec fn wf(self) -> bool {
        match self {
            Entity::Player(p) => p.wf(),
            Entity::Enemy(e) => e.wf(),
            Entity::Bullet(b) => b.wf(),
        }
    }

    /// The liveness flag of the entity's primary body.
    pub open spec fn alive(self) -> bool {
        match self {
            Entity::Player(p) => p.base.valid,
            Entity::Enemy(e) => e.base.valid,
            Entity::Bullet(b) => b.base.valid,
        }
    }

    pub open spec fn spec_is_bullet(self) -> bool {
        self is Bullet
    }

    /// Player-side classification: the ship itself, or a bullet it fired.
    pub open spec fn spec_is_player(self) -> bool {
        match self {
            Entity::Player(_) => true,
            Entity::Enemy(_) => false,
            Entity::Bullet(b) => b.side is Player,
        }
    }

    /// Enemy-side classification: an enemy ship, or a bullet one fired.
    pub open spec fn spec_is_enemy(self) -> bool {
        match self {
            Entity::Player(_) => false,
            Entity::Enemy(_) => true,
            Entity::Bullet(b) => b.side is Enemy,
        }
    }

    /// The body the entity exposes to the collision pass. The player
    /// withholds its body, so it is ineligible for collision.
    pub open spec fn spec_body(self) -> Option<EntityBase> {
        match self {
            Entity::Player(_) => None,
            Entity::Enemy(e) => Some(e.base),
            Entity::Bullet(b) => Some(b.base),
        }
    }

    /// The entity with its exposed body flagged invalid. An entity without
    /// a collidable body is left as it is.
    pub open spec fn killed(self) -> Entity {
        match self {
            Entity::Player(p) => Entity::Player(p),
            Entity::Enemy(e) => Entity::Enemy(
                Enemy { base: EntityBase { valid: false, ..e.base }, ..e },
            ),
            Entity::Bullet(b) => Entity::Bullet(
                Bullet { base: EntityBase { valid: false, ..b.base }, ..b },
            ),
        }
    }

    /// One frame of the entity's own behaviour, and the event it emits.
    pub open spec fn spec_update(self, now: u64) -> (Entity, EntityEvent) {
        match self {
            Entity::Player(p) => {
                let r = p.spec_update();
                (Entity::Player(r.0), r.1)
            }
            Entity::Enemy(e) => {
                let r = e.spec_update(now);
                (Entity::Enemy(r.0), r.1)
            }
            Entity::Bullet(b) => (Entity::Bullet(b.spec_update()), EntityEvent::Empty),
        }
    }

    /// Input only reaches the player; every other entity ignores it.
    pub open spec fn spec_handle_event(self, event: InputEvent) -> Entity {
        match self {
            Entity::Player(p) => Entity::Player(p.spec_handle_event(event)),
            Entity::Enemy(e) => Entity::Enemy(e),
            Entity::Bullet(b) => Entity::Bullet(b),
        }
    }

    /// The entity after a render call: only animation counters change.
    pub open spec fn spec_rendered(self) -> Entity {
        match self {
            Entity::Player(p) => Entity::Player(p.spec_rendered()),
            Entity::Enemy(e) => Entity::Enemy(e.spec_rendered()),
            Entity::Bullet(b) => Entity::Bullet(b.spec_rendered()),
        }
    }

    /// The drawing requests the entity makes each frame, in paint order.
    pub open spec fn spec_render_cmds(self) -> Seq<DrawCmd> {
        match self {
            Entity::Player(p) => p.spec_render_cmds(),
            Entity::Enemy(e) => e.spec_render_cmds(),
            Entity::Bullet(b) => seq![b.spec_render_cmd()],
        }
    }

    pub fn update(&mut self, now: u64) -> (ev: EntityEvent)
        requires
            old(self).wf(),
        ensures
            *final(self) == old(self).spec_update(now).0,
            ev == old(self).spec_update(now).1,
            final(self).wf(),
            !old(self).alive() ==> !final(self).alive(),
    {
        match self {
            Entity::Player(p) => p.update(),
            Entity::Enemy(e) => e.update(now),
            Entity::Bullet(b) => {
                b.update();
                EntityEvent::Empty
            }
        }
    }

    pub fn handle_event(&mut self, event: InputEvent)
        requires
            old(self).wf(),
        ensures
            *final(self) == old(self).spec_handle_event(event),
            final(self).wf(),
    {
        match self {
            Entity::Player(p) => p.handle_event(event),
            Entity::Enemy(_) => {}
            Entity::Bullet(_) => {}
        }
    }

    pub fn render(&mut self) -> (cmds: Vec<DrawCmd>)
        requires
            old(self).wf(),
        ensures
            cmds@ == old(self).spec_render_cmds(),
            *final(self) == old(self).spec_rendered(),
            final(self).wf(),
            final(self).alive() == old(self).alive(),
    {
        match self {
            Entity::Player(p) => p.render(),
            Entity::Enemy(e) => e.render(),
            Entity::Bullet(b) => {
                let mut cmds: Vec<DrawCmd> = Vec::new();
                let cmd = b.render();
                cmds.push(cmd);
                proof {
                    assert(cmds@ =~= old(self).spec_render_cmds());
                }
                cmds
            }
        }
    }

    pub fn valid(&self) -> (r: bool)
        ensures
            r == self.alive(),
    {
        match self {
            Entity::Player(p) => p.valid(),
            Entity::Enemy(e) => e.valid(),
            Entity::Bullet(b) => b.valid(),
        }
    }

    pub fn is_bullet(&self) -> (r: bool)
        ensures
            r == self.spec_is_bullet(),
    {
        match self {
            Entity::Bullet(b) => b.is_bullet(),
            Entity::Player(_) => false,
            Entity::Enemy(_) => false,
        }
    }

    pub fn is_player(&self) -> (r: bool)
        ensures
            r == self.spec_is_player(),
    {
        match self {
            Entity::Player(p) => p.is_player(),
            Entity::Enemy(_) => false,
            Entity::Bullet(b) => b.is_player(),
        }
    }

    pub fn is_enemy(&self) -> (r: bool)
        ensures
            r == self.spec_is_enemy(),
    {
        match self {
            Entity::Player(_) => false,
            Entity::Enemy(e) => e.is_enemy(),
            Entity::Bullet(b) => b.is_enemy(),
        }
    }

    /// The capability query the collision pass uses: the entity's body, or
    /// nothing for an entity that does not take part in collision.
    pub fn base(&self) -> (r: Option<EntityBase>)
        ensures
            r == self.spec_body(),
    {
        match self {
            Entity::Player(_) => None,
            Entity::Enemy(e) => Some(e.base),
            Entity::Bullet(b) => Some(b.base),
        }
    }

    /// Flag the entity's exposed body invalid; never the reverse.
    pub fn set_dead(&mut self)
        ensures
            *final(self) == old(self).killed(),
            !old(self).alive() ==> !final(self).alive(),
    {
        match self {
            Entity::Player(_) => {}
            Entity::Enemy(e) => {
                e.base.valid = false;
            }
            Entity::Bullet(b) => {
                b.base.valid = false;
            }
        }
    }
}

} // verus!
