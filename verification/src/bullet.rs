//! Straight-line projectiles. A bullet advances one horizontal kinematic
//! step per frame; a rejected step means it has left the viewport on its
//! leading edge, which flags it invalid so the compaction pass evicts it.
//! The side tag fixes which entities it may collide with and never changes.

use vstd::prelude::*;
use crate::entity::EntityBase;
use crate::texture::{ComponentTexture, DrawCmd};

verus! {

/// Which side fired the bullet. Collisions are only recorded between a
/// bullet and a ship of the opposite side.
#[derive(Clone, Copy, PartialEq, Eq, Structural, Debug)]
pub enum Side {
    Enemy,
    Player,
}

#[derive(Clone, Copy, PartialEq, Eq, Structural, Debug)]
pub struct Bullet {
    pub base: EntityBase,
    pub side: Side,
    /// Rendering-only rotation, in degrees.
    pub angle_deg: i32,
    pub texture: ComponentTexture,
}

impl Bullet {
    pub open spec fn wf(self) -> bool {
        &&& self.base.wf()
        &&& self.texture.wf()
    }

    pub fn new(base: EntityBase, side: Side, angle_deg: i32, texture: ComponentTexture) -> (b: Bullet)
        ensures
            b == (Bullet { base, side, angle_deg, texture }),
    {
        Bullet { base, side, angle_deg, texture }
    }

    /// The bullet one frame later: stepped along x if the step is accepted,
    /// otherwise unmoved and flagged invalid (it has left the viewport).
    pub open spec fn spec_update(self) -> Bullet {
        if self.base.x_accepts(self.base.x + self.base.dx) {
            Bullet { base: self.base.after_step_x(), ..self }
        } else {
            Bullet { base: EntityBase { valid: false, ..self.base }, ..self }
        }
    }

    /// One frame of bullet motion. Never spawns anything, and never resets
    /// `valid` to true.
    pub fn update(&mut self)
        requires
            old(self).wf(),
        ensures
            *final(self) == old(self).spec_update(),
            final(self).wf(),
            !old(self).base.valid ==> !final(self).base.valid,
    {
        if !self.base.update_x() {
            self.base.valid = false;
        }
    }

    /// The bullet after a render call: only the animation counters advance.
    pub open spec fn spec_rendered(self) -> Bullet {
        Bullet { texture: self.texture.advanced(), ..self }
    }

    /// The single drawing request a bullet makes each frame.
    pub open spec fn spec_render_cmd(self) -> DrawCmd {
        self.texture.draw_cmd(
            self.texture.current_frame as int,
            self.base.x as int,
            self.base.y as int,
            self.angle_deg as int,
        )
    }

    /// Draw the bullet's sprite at its position, rotated by its angle.
    pub fn render(&mut self) -> (cmd: DrawCmd)
        requires
            old(self).wf(),
        ensures
            cmd == old(self).spec_render_cmd(),
            *final(self) == old(self).spec_rendered(),
            final(self).wf(),
    {
        self.texture.render((self.base.x, self.base.y), self.angle_deg)
    }

    pub fn valid(&self) -> (r: bool)
        ensures
            r == self.base.valid,
    {
        self.base.valid
    }

    pub fn is_bullet(&self) -> (r: bool)
        ensures
            r,
    {
        true
    }

    pub fn is_enemy(&self) -> (r: bool)
        ensures
            r == (self.side is Enemy),
    {
        match self.side {
            Side::Enemy => true,
            Side::Player => false,
        }
    }

    pub fn is_player(&self) -> (r: bool)
        ensures
            r == (self.side is Player),
    {
        match self.side {
            Side::Enemy => false,
            Side::Player => true,
        }
    }
}

} // verus!
