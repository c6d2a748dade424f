//! Sprite-sheet handles. The underlying image data lives outside the
//! simulation; what the engine owns is the per-handle animation state (frame
//! counters over a horizontal strip of `total_frame` frames) and the geometry
//! of each draw. Rendering is modelled as producing [`DrawCmd`] values, which
//! the platform layer turns into actual blits.

use vstd::prelude::*;

verus! {

/// How many rendered frames each sprite-sheet frame is held for.
pub const ANIMATION_SPEED: usize = 5;

/// Upper bound on frame counts and pixel dimensions of a sprite sheet.
pub const TEXTURE_BOUND: usize = 0x10_0000;

/// A sprite sheet on disk: where to find it and how many frames it holds.
pub struct TextureInfo<'a> {
    pub path: &'a str,
    pub total_frame: usize,
}

/// One drawing request: copy the `src` rectangle of the sheet `texture_id`
/// to the `dst` rectangle, rotated by `angle_deg` degrees.
#[derive(Clone, Copy, PartialEq, Eq, Structural, Debug)]
pub struct DrawCmd {
    pub texture_id: usize,
    pub src_x: i32,
    pub src_y: i32,
    pub src_w: u32,
    pub src_h: u32,
    pub dst_x: i32,
    pub dst_y: i32,
    pub dst_w: u32,
    pub dst_h: u32,
    pub angle_deg: i32,
}

/// One entity's handle on a shared sprite sheet. The image data itself is
/// shared; the animation counters `cnt` and `current_frame` are private to
/// the handle, so advancing one entity's animation never affects siblings
/// built from the same sheet.
#[derive(Clone, Copy, PartialEq, Eq, Structural, Debug)]
pub struct ComponentTexture {
    /// Which loaded sheet this handle draws from (an index the platform
    /// layer assigned when it loaded the image).
    pub id: usize,
    pub total_frame: usize,
    pub cnt: usize,
    pub current_frame: usize,
    /// Pixel width of the whole sheet (all frames side by side).
    pub total_width: u32,
    /// Pixel height of the sheet.
    pub height: u32,
}

impl ComponentTexture {
    pub open spec fn wf(self) -> bool {
        &&& 1 <= self.total_frame <= TEXTURE_BOUND
        &&& self.total_width <= TEXTURE_BOUND as u32
        &&& self.height <= TEXTURE_BOUND as u32
        &&& self.cnt < self.total_frame * ANIMATION_SPEED
        &&& self.current_frame == self.cnt as int / ANIMATION_SPEED as int
    }

    /// Width of a single frame: the sheet width split evenly across frames.
    pub open spec fn frame_width(self) -> int {
        self.total_width as int / self.total_frame as int
    }

    /// The counters one animation tick later: `cnt` cycles through
    /// `total_frame * ANIMATION_SPEED` and `current_frame` follows it.
    pub open spec fn advanced(self) -> ComponentTexture {
        let c = (self.cnt + 1) % (self.total_frame * ANIMATION_SPEED);
        ComponentTexture {
            cnt: c as usize,
            current_frame: (c / ANIMATION_SPEED as int) as usize,
            ..self
        }
    }

    /// The request that draws frame `index` of this sheet at `(x, y)`,
    /// doubled in size, rotated by `angle_deg`.
    pub open spec fn draw_cmd(self, index: int, x: int, y: int, angle_deg: int) -> DrawCmd {
        DrawCmd {
            texture_id: self.id,
            src_x: (index * self.frame_width()) as i32,
            src_y: 0,
            src_w: self.frame_width() as u32,
            src_h: self.height,
            dst_x: x as i32,
            dst_y: y as i32,
            dst_w: (2 * self.frame_width()) as u32,
            dst_h: (2 * self.height) as u32,
            angle_deg: angle_deg as i32,
        }
    }

    /// A fresh handle on the sheet `id`, described by `info` and measuring
    /// `total_width` by `height` pixels, with the animation at its start.
    pub fn new(id: usize, info: &TextureInfo, total_width: u32, height: u32) -> (t: ComponentTexture)
        requires
            1 <= info.total_frame <= TEXTURE_BOUND,
            total_width <= TEXTURE_BOUND as u32,
            height <= TEXTURE_BOUND as u32,
        ensures
            t == (ComponentTexture {
                id,
                total_frame: info.total_frame,
                cnt: 0,
                current_frame: 0,
                total_width,
                height,
            }),
            t.wf(),
    {
        ComponentTexture {
            id,
            total_frame: info.total_frame,
            cnt: 0,
            current_frame: 0,
            total_width,
            height,
        }
    }

    /// Width and height of a single frame.
    pub fn size(&self) -> (r: (u32, u32))
        requires
            self.wf(),
        ensures
            r.0 == self.frame_width(),
            r.0 <= self.total_width,
            r.1 == self.height,
    {
        proof {
            vstd::arithmetic::div_mod::lemma_div_pos_is_pos(
                self.total_width as int,
                self.total_frame as int,
            );
            vstd::arithmetic::div_mod::lemma_div_is_ordered_by_denominator(
                self.total_width as int,
                1,
                self.total_frame as int,
            );
        }
        let width = self.total_width / (self.total_frame as u32);
        (width, self.height)
    }

    /// `current_frame` never reaches `total_frame` for a well-formed handle.
    pub proof fn lemma_current_frame_in_range(self)
        requires
            self.wf(),
        ensures
            0 <= self.current_frame < self.total_frame,
    {
        let s = ANIMATION_SPEED as int;
        let tf = self.total_frame as int;
        vstd::arithmetic::div_mod::lemma_div_pos_is_pos(self.cnt as int, s);
        vstd::arithmetic::div_mod::lemma_div_is_ordered(self.cnt as int, s * (tf - 1) + (s - 1), s);
        vstd::arithmetic::div_mod::lemma_div_multiples_vanish_fancy(tf - 1, s - 1, s);
    }

    /// The request that draws frame `index` at `offset`, without touching
    /// the animation counters.
    pub fn render_nth(&self, index: usize, offset: (i32, i32), angle_deg: i32) -> (cmd: DrawCmd)
        requires
            self.wf(),
            index < self.total_frame,
        ensures
            cmd == self.draw_cmd(index as int, offset.0 as int, offset.1 as int, angle_deg as int),
    {
        proof {
            let tw = self.total_width as int;
            let tf = self.total_frame as int;
            let w = tw / tf;
            vstd::arithmetic::div_mod::lemma_div_pos_is_pos(tw, tf);
            vstd::arithmetic::div_mod::lemma_fundamental_div_mod(tw, tf);
            vstd::arithmetic::div_mod::lemma_mod_bound(tw, tf);
            vstd::arithmetic::mul::lemma_mul_inequality(index as int + 1, tf, w);
            assert((index as int + 1) * w == index as int * w + w)
                by (nonlinear_arith);
        }
        let width: u32 = self.total_width / (self.total_frame as u32);
        let src_x: u32 = (index as u32) * width;
        DrawCmd {
            texture_id: self.id,
            src_x: src_x as i32,
            src_y: 0,
            src_w: width,
            src_h: self.height,
            dst_x: offset.0,
            dst_y: offset.1,
            dst_w: width * 2,
            dst_h: self.height * 2,
            angle_deg,
        }
    }

    /// The request that draws the current animation frame at `offset`, and
    /// one tick of the animation counters.
    pub fn render(&mut self, offset: (i32, i32), angle_deg: i32) -> (cmd: DrawCmd)
        requires
            old(self).wf(),
        ensures
            cmd == old(self).draw_cmd(
                old(self).current_frame as int,
                offset.0 as int,
                offset.1 as int,
                angle_deg as int,
            ),
            *final(self) == old(self).advanced(),
            final(self).wf(),
    {
        proof {
            self.lemma_current_frame_in_range();
        }
        let cmd = self.render_nth(self.current_frame, offset, angle_deg);
        self.cnt = (self.cnt + 1) % (self.total_frame * ANIMATION_SPEED);
        self.current_frame = self.cnt / ANIMATION_SPEED;
        cmd
    }
}

} // verus!
