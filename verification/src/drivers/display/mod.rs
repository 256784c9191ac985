//! Portable display: double-buffered XRGB8888 framebuffer plus a scanout backend.
//!
//! Drawing only touches the back buffer; `present` swaps the buffers and tells the
//! backend which one to scan out.
use vstd::prelude::*;

use crate::board::{FB_BPP, FB_BYTES, FB_HEIGHT, FB_REGION_BASE, FB_STRIDE, FB_WIDTH};
use crate::kui::kdraw::Framebuffer;

pub mod ltdc;
pub mod soft;

verus! {

/// Address of framebuffer `index`.
pub open spec fn buffer_addr(index: u8) -> usize {
    (FB_REGION_BASE + index * FB_BYTES) as usize
}

/// Address of framebuffer `index` (0 or 1 in use; any index is laid out after them).
pub fn buffer_base(index: u8) -> (r: usize)
    ensures
        r == buffer_addr(index),
{
    proof {
        assert(FB_BYTES == 1_536_000);
        assert(index * 1_536_000 <= 255 * 1_536_000) by (nonlinear_arith)
            requires index <= 255;
    }
    let off = (index as usize) * (FB_BYTES as usize);
    FB_REGION_BASE + off
}

/// Which buffer is being drawn, together with the framebuffer description installed
/// for drawing, kept in step with it.
pub struct DisplayState {
    /// 0 or 1: index of the buffer used for drawing.
    back_idx: u8,
    /// The installed framebuffer; its back index is always `back_idx`.
    fb: Framebuffer,
}

/// Addresses a swap hands to the scanout backend and to the copy that seeds the new
/// back buffer with what is on screen.
#[derive(Clone, Copy, Debug, PartialEq, Eq, Structural)]
pub struct PresentPlan {
    /// The buffer to scan out from now on (the old back buffer).
    pub front: usize,
    /// The buffer drawing continues in (to be seeded with a copy of `front`).
    pub back: usize,
}

impl View for DisplayState {
    type V = u8;

    closed spec fn view(&self) -> u8 {
        self.back_idx
    }
}

/// `fb` is the start-up framebuffer description with its back index set to `back`.
pub open spec fn installed(fb: Framebuffer, back: u8) -> bool {
    &&& fb.bases@ == seq![buffer_addr(0), buffer_addr(1)]
    &&& fb.back_idx == back
    &&& fb.width == FB_WIDTH
    &&& fb.height == FB_HEIGHT
    &&& fb.pitch == FB_STRIDE
    &&& fb.bpp == FB_BPP
}

/// The buffer `fb` draws into (what `Framebuffer::base` returns).
pub open spec fn fb_base(fb: Framebuffer) -> usize {
    fb.bases@[(fb.back_idx & 1) as int]
}

impl DisplayState {
    /// The installed framebuffer description.
    pub closed spec fn spec_fb(&self) -> Framebuffer {
        self.fb
    }

    #[verifier::type_invariant]
    spec fn in_step(&self) -> bool {
        &&& self.back_idx <= 1
        &&& installed(self.fb, self.back_idx)
    }

    /// Buffer 0 is scanned out first; drawing starts in buffer 1.
    pub fn new() -> (r: DisplayState)
        ensures
            r@ == 1,
            installed(r.spec_fb(), 1),
    {
        DisplayState { back_idx: 1, fb: framebuffer_config() }
    }

    /// Index of the buffer being drawn.
    pub fn back_index(&self) -> (r: u8)
        ensures
            r == self@,
            r <= 1,
            installed(self.spec_fb(), r),
    {
        proof {
            use_type_invariant(self);
        }
        self.back_idx
    }

    /// The installed framebuffer: drawing goes to its `base()`, the back buffer.
    pub fn framebuffer(&self) -> (r: &Framebuffer)
        ensures
            *r == self.spec_fb(),
            installed(*r, self@),
            self@ <= 1,
            fb_base(*r) == buffer_addr(self@),
    {
        proof {
            use_type_invariant(self);
            let b = self.back_idx;
            assert(b <= 1 ==> (b & 1) == b) by (bit_vector);
        }
        &self.fb
    }

    /// Swaps back and front: the old back buffer becomes visible and drawing moves to
    /// the other buffer, in this state and in the installed framebuffer.
    pub fn present(&mut self) -> (r: PresentPlan)
        ensures
            old(self)@ <= 1,
            final(self)@ == 1 - old(self)@,
            r.front == buffer_addr(old(self)@),
            r.back == buffer_addr(final(self)@),
            final(self).spec_fb() == (Framebuffer { back_idx: final(self)@, ..old(self).spec_fb() }),
    {
        proof {
            use_type_invariant(&*self);
        }
        let old_back = self.back_idx;
        let new_back = old_back ^ 1;
        assert(old_back <= 1 ==> (old_back ^ 1) == 1 - old_back) by (bit_vector);
        let new_front = old_back;
        let fb = Framebuffer {
            bases: self.fb.bases,
            back_idx: new_back,
            width: self.fb.width,
            height: self.fb.height,
            pitch: self.fb.pitch,
            bpp: self.fb.bpp,
        };
        *self = DisplayState { back_idx: new_back, fb };
        PresentPlan { front: buffer_base(new_front), back: buffer_base(new_back) }
    }

    /// Address of the buffer being scanned out: the installed framebuffer's other
    /// buffer, never the one drawing goes to.
    pub fn front_base(&self) -> (r: usize)
        ensures
            r == buffer_addr((1 - self@) as u8),
            r == self.spec_fb().bases@[(self.spec_fb().back_idx ^ 1) as int],
            r != fb_base(self.spec_fb()),
    {
        proof {
            use_type_invariant(self);
            lemma_present_alternates(self.back_idx);
        }
        let b = self.back_idx;
        assert(b <= 1 ==> (b ^ 1) == 1 - b) by (bit_vector);
        assert(b <= 1 ==> (b & 1) == b) by (bit_vector);
        buffer_base(b ^ 1)
    }
}

/// Address of the buffer being scanned out, once the display is initialised; it is
/// never the buffer the installed framebuffer draws into.
pub fn front_base(state: &Option<DisplayState>) -> (r: Option<usize>)
    ensures
        match *state {
            Some(s) => r == Some(buffer_addr((1 - s@) as u8))
                && r == Some(s.spec_fb().bases@[(s.spec_fb().back_idx ^ 1) as int])
                && r != Some(fb_base(s.spec_fb())),
            None => r is None,
        },
{
    match state {
        Some(s) => Some(s.front_base()),
        None => None,
    }
}

/// The framebuffer description installed at start-up: both buffers, drawing in
/// buffer 1, 800 x 480 at 32 bits per pixel.
pub fn framebuffer_config() -> (r: Framebuffer)
    ensures
        r.bases@ == seq![buffer_addr(0), buffer_addr(1)],
        r.back_idx == 1,
        r.width == FB_WIDTH,
        r.height == FB_HEIGHT,
        r.pitch == FB_STRIDE,
        r.bpp == FB_BPP,
{
    let fb = Framebuffer {
        bases: [buffer_base(0), buffer_base(1)],
        back_idx: 1,
        width: FB_WIDTH as u64,
        height: FB_HEIGHT as u64,
        pitch: FB_STRIDE as u64,
        bpp: FB_BPP,
    };
    proof {
        assert(fb.bases@ =~= seq![buffer_addr(0), buffer_addr(1)]);
    }
    fb
}

/// Two swaps restore the buffer roles, and the buffer shown is never the one drawn.
pub proof fn lemma_present_alternates(back: u8)
    requires
        back <= 1,
    ensures
        (1 - (1 - back)) == back,
        buffer_addr(back) != buffer_addr((1 - back) as u8),
{
    assert(FB_BYTES == 1_536_000);
}

/// Index of the back buffer after `k` presents from start-up (drawing starts in
/// buffer 1).
pub open spec fn back_after(k: nat) -> u8 {
    ((1 + k) % 2) as u8
}

/// Start-up draws in buffer 1, and each present moves the back index from
/// `back_after(k)` to `back_after(k + 1)`.
pub proof fn lemma_back_after_presents(k: nat)
    ensures
        back_after(0) == 1,
        back_after(k) <= 1,
        1 - back_after(k) == back_after(k + 1),
{
}

} // verus!
