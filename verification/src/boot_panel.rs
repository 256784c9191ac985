//! The bootloader's fail panel: solid fills and scaled 5x7 text on the 800 x 480
//! framebuffer, drawn through a [`Surface`].
use vstd::prelude::*;

use crate::boot::{fail_reason, glyph5x7, glyph_spec, hex_text, hex_u32, reason_text};
use crate::boot_hw::{FB_H, FB_W, ltdc_enable_fb, ltdc_fb_ops};
use crate::hal::regs::RegOp;
use vstd::string::StringSliceAdditionalSpecFns;
use crate::kui::kdraw::{Surface, min_int, sat};

verus! {

/// Pixel `(px, py)` lies in the part of `[x, x + w) x [y, y + h)` (sums saturating)
/// that is on the 800 x 480 panel.
pub open spec fn fill_holds(x: u32, y: u32, w: u32, h: u32, px: int, py: int) -> bool {
    x <= px < min_int(sat(x, w), FB_W as int) && y <= py < min_int(sat(y, h), FB_H as int)
}

/// Fills `[x, x + w) x [y, y + h)`, clipped to the panel.
pub fn fb_fill(s: &mut Surface, x: u32, y: u32, w: u32, h: u32, color: u32)
    requires
        old(s).wf(),
    ensures
        final(s).wf(),
        final(s).spec_width() == old(s).spec_width(),
        final(s).spec_height() == old(s).spec_height(),
        final(s)@.dom() == old(s)@.dom(),
        forall|p: (int, int)|
            #[trigger] final(s)@.dom().contains(p) ==> final(s)@[p] == (if fill_holds(x, y, w, h, p.0, p.1) {
                color
            } else {
                old(s)@[p]
            }),
{
    let xs = x.saturating_add(w);
    let ys = y.saturating_add(h);
    let x1 = if xs < FB_W { xs } else { FB_W };
    let y1 = if ys < FB_H { ys } else { FB_H };
    let x0 = if x < FB_W { x } else { FB_W };
    let y0 = if y < FB_H { y } else { FB_H };
    s.fill_span(x0, x1, y0, y1, color);
}

/// Fills the whole panel.
pub fn fb_fill_screen(s: &mut Surface, color: u32)
    requires
        old(s).wf(),
    ensures
        final(s).wf(),
        final(s).spec_width() == old(s).spec_width(),
        final(s).spec_height() == old(s).spec_height(),
        final(s)@.dom() == old(s)@.dom(),
        forall|p: (int, int)|
            #[trigger] final(s)@.dom().contains(p) ==> final(s)@[p] == (if 0 <= p.0 < FB_W && 0 <= p.1
                < FB_H {
                color
            } else {
                old(s)@[p]
            }),
{
    fb_fill(s, 0, 0, FB_W, FB_H, color);
}

/// Row `row` of glyph column `bits` is set.
pub open spec fn bit_set(bits: u8, row: int) -> bool {
    (bits >> row as u8) & 1 == 1
}

/// Some set bit among columns before `ncol` (all rows) or column `ncol` (rows before
/// `nrow`) has its `sc x sc` cell at pixel `(px, py)`; the glyph's top-left is `(x, y)`.
pub open spec fn glyph_cells(g: Seq<u8>, x: int, y: int, sc: int, ncol: int, nrow: int, px: int, py: int) -> bool {
    exists|c: int, r: int|
        #![trigger bit_set(g[c], r)]
        0 <= c < 5 && 0 <= r < 7 && (c < ncol || (c == ncol && r < nrow)) && bit_set(g[c], r)
            && fill_holds((x + c * sc) as u32, (y + r * sc) as u32, sc as u32, sc as u32, px, py)
}

/// Pixel `(px, py)` is covered by glyph `g` drawn at `(x, y)` with scale `sc`.
pub open spec fn glyph_painted(g: Seq<u8>, x: int, y: int, sc: int, px: int, py: int) -> bool {
    glyph_cells(g, x, y, sc, 5, 0, px, py)
}

/// Draws glyph `g` with its top-left corner at `(x, y)`, each font bit an
/// `scale x scale` block.
pub fn fb_draw_glyph(s: &mut Surface, g: [u8; 5], x: u32, y: u32, scale: u32, color: u32)
    requires
        old(s).wf(),
        x + 4 * scale <= u32::MAX,
        y + 6 * scale <= u32::MAX,
    ensures
        final(s).wf(),
        final(s).spec_width() == old(s).spec_width(),
        final(s).spec_height() == old(s).spec_height(),
        final(s)@.dom() == old(s)@.dom(),
        forall|p: (int, int)|
            #[trigger] final(s)@.dom().contains(p) ==> final(s)@[p] == (if glyph_painted(
                g@,
                x as int,
                y as int,
                scale as int,
                p.0,
                p.1,
            ) {
                color
            } else {
                old(s)@[p]
            }),
{
    let ghost orig = s@;
    let ghost gs = g@;
    let mut col: u32 = 0;
    while col < 5
        invariant
            s.wf(),
            s.spec_width() == old(s).spec_width(),
            s.spec_height() == old(s).spec_height(),
            s@.dom() == orig.dom(),
            orig == old(s)@,
            gs == g@,
            0 <= col <= 5,
            x + 4 * scale <= u32::MAX,
            y + 6 * scale <= u32::MAX,
            forall|p: (int, int)|
                #[trigger] s@.dom().contains(p) ==> s@[p] == (if glyph_cells(gs, x as int, y as int, scale as int, col as int, 0, p.0, p.1) {
                    color
                } else {
                    orig[p]
                }),
        decreases 5 - col,
    {
        let bits = g[col as usize];
        let mut row: u32 = 0;
        while row < 7
            invariant
                s.wf(),
                s.spec_width() == old(s).spec_width(),
                s.spec_height() == old(s).spec_height(),
                s@.dom() == orig.dom(),
                gs == g@,
                bits == gs[col as int],
                0 <= col < 5,
                0 <= row <= 7,
                x + 4 * scale <= u32::MAX,
                y + 6 * scale <= u32::MAX,
                forall|p: (int, int)|
                    #[trigger] s@.dom().contains(p) ==> s@[p] == (if glyph_cells(gs, x as int, y as int, scale as int, col as int, row as int, p.0, p.1) {
                        color
                    } else {
                        orig[p]
                    }),
            decreases 7 - row,
        {
            let set = bits & (1u8 << row) != 0;
            proof {
                let r8 = row as u8;
                assert(((bits & (1u8 << r8)) != 0) == ((bits >> r8) & 1 == 1)) by (bit_vector)
                    requires r8 < 7;
                assert((bits & (1u8 << row)) == (bits & (1u8 << r8)));
            }
            let ghost before = s@;
            let ghost cx_g = (x + col * scale) as int;
            let ghost cy_g = (y + row * scale) as int;
            proof {
                assert(col * scale <= 4 * scale) by (nonlinear_arith)
                    requires col <= 4;
                assert(row * scale <= 6 * scale) by (nonlinear_arith)
                    requires row <= 6;
            }
            if set {
                let cx = x + col * scale;
                let cy = y + row * scale;
                fb_fill(s, cx, cy, scale, scale, color);
            }
            proof {
                let (c0, r0) = (col as int, row as int);
                assert forall|p: (int, int)| #[trigger] s@.dom().contains(p) implies s@[p] == (if glyph_cells(gs, x as int, y as int, scale as int, c0, r0 + 1, p.0, p.1) {
                    color
                } else {
                    orig[p]
                }) by {
                    let now = glyph_cells(gs, x as int, y as int, scale as int, c0, r0 + 1, p.0, p.1);
                    let was = glyph_cells(gs, x as int, y as int, scale as int, c0, r0, p.0, p.1);
                    let cell = set && fill_holds(cx_g as u32, cy_g as u32, scale, scale, p.0, p.1);
                    if was {
                        let (c, r) = choose|c: int, r: int|
                            #![trigger bit_set(gs[c], r)]
                            0 <= c < 5 && 0 <= r < 7 && (c < c0 || (c == c0 && r < r0)) && bit_set(gs[c], r)
                                && fill_holds((x + c * scale) as u32, (y + r * scale) as u32, scale as u32, scale as u32, p.0, p.1);
                        assert(bit_set(gs[c], r));
                    }
                    if cell {
                        assert(bit_set(gs[c0], r0));
                    }
                    if now {
                        let (c, r) = choose|c: int, r: int|
                            #![trigger bit_set(gs[c], r)]
                            0 <= c < 5 && 0 <= r < 7 && (c < c0 || (c == c0 && r < r0 + 1)) && bit_set(gs[c], r)
                                && fill_holds((x + c * scale) as u32, (y + r * scale) as u32, scale as u32, scale as u32, p.0, p.1);
                        if !(c == c0 && r == r0) {
                            assert(bit_set(gs[c], r));
                        }
                    }
                    assert(now == (was || cell));
                }
            }
            row = row + 1;
        }
        proof {
            let c0 = col as int;
            assert forall|p: (int, int)| #[trigger] s@.dom().contains(p) implies s@[p] == (if glyph_cells(gs, x as int, y as int, scale as int, c0 + 1, 0, p.0, p.1) {
                color
            } else {
                orig[p]
            }) by {
                let a = glyph_cells(gs, x as int, y as int, scale as int, c0, 7, p.0, p.1);
                let b = glyph_cells(gs, x as int, y as int, scale as int, c0 + 1, 0, p.0, p.1);
                if a {
                    let (c, r) = choose|c: int, r: int|
                        #![trigger bit_set(gs[c], r)]
                        0 <= c < 5 && 0 <= r < 7 && (c < c0 || (c == c0 && r < 7)) && bit_set(gs[c], r)
                            && fill_holds((x + c * scale) as u32, (y + r * scale) as u32, scale as u32, scale as u32, p.0, p.1);
                    assert(bit_set(gs[c], r));
                }
                if b {
                    let (c, r) = choose|c: int, r: int|
                        #![trigger bit_set(gs[c], r)]
                        0 <= c < 5 && 0 <= r < 7 && (c < c0 + 1 || (c == c0 + 1 && r < 0)) && bit_set(gs[c], r)
                            && fill_holds((x + c * scale) as u32, (y + r * scale) as u32, scale as u32, scale as u32, p.0, p.1);
                    assert(bit_set(gs[c], r));
                }
                assert(a == b);
            }
        }
        col = col + 1;
    }
}

/// Pen position before character `i` of `text`: each drawn character advances it by
/// six font pixels (saturating); newlines do not move it.
pub open spec fn pen(text: Seq<u8>, i: int, x0: int, sc: int) -> int
    decreases i,
{
    if i <= 0 {
        x0
    } else {
        let p = pen(text, i - 1, x0, sc);
        if text[i - 1] == 0x0A {
            p
        } else if p + 6 * sc > u32::MAX {
            u32::MAX as int
        } else {
            p + 6 * sc
        }
    }
}

/// Character `i` is still reached: every drawn character before it left the pen
/// inside the panel.
pub open spec fn active(text: Seq<u8>, i: int, x0: int, sc: int) -> bool
    decreases i,
{
    if i <= 0 {
        true
    } else {
        active(text, i - 1, x0, sc) && (text[i - 1] == 0x0A || pen(text, i, x0, sc) < FB_W)
    }
}

/// Pixel `(px, py)` is covered by one of the first `i` characters of `text` drawn from
/// `(x0, y)` with scale `sc`.
pub open spec fn text_painted(text: Seq<u8>, i: int, x0: int, y: int, sc: int, px: int, py: int) -> bool
    decreases i,
{
    if i <= 0 {
        false
    } else {
        text_painted(text, i - 1, x0, y, sc, px, py) || (active(text, i - 1, x0, sc) && text[i - 1]
            != 0x0A && glyph_painted(glyph_spec(text[i - 1]), pen(text, i - 1, x0, sc), y, sc, px, py))
    }
}

/// Once a character is no longer reached, no later one is drawn.
proof fn lemma_inactive_stays(text: Seq<u8>, k: int, j: int, x0: int, y: int, sc: int, px: int, py: int)
    requires
        0 <= k <= j,
        !active(text, k, x0, sc),
    ensures
        !active(text, j, x0, sc),
        text_painted(text, j, x0, y, sc, px, py) == text_painted(text, k, x0, y, sc, px, py),
    decreases j - k,
{
    if j > k {
        lemma_inactive_stays(text, k, j - 1, x0, y, sc, px, py);
    }
}

/// The scale actually used: at least 1.
pub open spec fn eff_scale(scale: u32) -> int {
    if scale >= 1 {
        scale as int
    } else {
        1
    }
}

/// Draws `text` with the top-left of the first glyph at `(x, y)`, each font bit an
/// `scale x scale` block (scale at least 1), six font pixels per character; newlines
/// are skipped, and drawing stops once the pen leaves the panel.
pub fn fb_draw_text(s: &mut Surface, x: u32, y: u32, text: &[u8], scale: u32, color: u32)
    requires
        old(s).wf(),
        6 * eff_scale(scale) <= u32::MAX,
        x + 4 * eff_scale(scale) <= u32::MAX,
        y + 6 * eff_scale(scale) <= u32::MAX,
    ensures
        final(s).wf(),
        final(s).spec_width() == old(s).spec_width(),
        final(s).spec_height() == old(s).spec_height(),
        final(s)@.dom() == old(s)@.dom(),
        forall|p: (int, int)|
            #[trigger] final(s)@.dom().contains(p) ==> final(s)@[p] == (if text_painted(
                text@,
                text@.len() as int,
                x as int,
                y as int,
                eff_scale(scale),
                p.0,
                p.1,
            ) {
                color
            } else {
                old(s)@[p]
            }),
{
    let scale = if scale >= 1 { scale } else { 1 };
    let ghost orig = s@;
    let ghost t = text@;
    let ghost x0 = x as int;
    let mut pen_x = x;
    let mut i: usize = 0;
    while i < text.len()
        invariant_except_break
            s.wf(),
            s.spec_width() == old(s).spec_width(),
            s.spec_height() == old(s).spec_height(),
            s@.dom() == orig.dom(),
            orig == old(s)@,
            t == text@,
            x0 == x,
            scale as int == eff_scale(scale),
            scale >= 1,
            6 * scale <= u32::MAX,
            x + 4 * scale <= u32::MAX,
            y + 6 * scale <= u32::MAX,
            0 <= i <= t.len(),
            pen_x == pen(t, i as int, x0, scale as int),
            pen_x == x || pen_x < FB_W,
            active(t, i as int, x0, scale as int),
            forall|p: (int, int)|
                #[trigger] s@.dom().contains(p) ==> s@[p] == (if text_painted(t, i as int, x0, y as int, scale as int, p.0, p.1) {
                    color
                } else {
                    orig[p]
                }),
        ensures
            s.wf(),
            s.spec_width() == old(s).spec_width(),
            s.spec_height() == old(s).spec_height(),
            s@.dom() == orig.dom(),
            forall|p: (int, int)|
                #[trigger] s@.dom().contains(p) ==> s@[p] == (if text_painted(t, t.len() as int, x0, y as int, scale as int, p.0, p.1) {
                    color
                } else {
                    orig[p]
                }),
        decreases t.len() - i,
    {
        let c = text[i];
        if c == 0x0A {
            i = i + 1;
            continue;
        }
        let g = glyph5x7(c);
        fb_draw_glyph(s, g, pen_x, y, scale, color);
        pen_x = pen_x.saturating_add(6 * scale);
        i = i + 1;
        if pen_x >= FB_W {
            proof {
                assert forall|p: (int, int)| #[trigger] s@.dom().contains(p) implies s@[p] == (if text_painted(t, t.len() as int, x0, y as int, scale as int, p.0, p.1) {
                    color
                } else {
                    orig[p]
                }) by {
                    lemma_inactive_stays(t, i as int, t.len() as int, x0, y as int, scale as int, p.0, p.1);
                }
            }
            break;
        }
    }
}

pub const COL_BLACK: u32 = 0x0000_0000;

pub const COL_RED: u32 = 0x00FF_0000;

/// Pixel `(px, py)` is covered by one line of the fail panel's text.
pub open spec fn line_painted(text: Seq<u8>, x: int, y: int, sc: int, px: int, py: int) -> bool {
    text_painted(text, text.len() as int, x, y, sc, px, py)
}

/// Pixel `(px, py)` is covered by the fail panel's text for vector table
/// `(msp, reset)`: the title, the explanation, and both words in hexadecimal.
pub open spec fn fail_text_painted(msp: u32, reset: u32, px: int, py: int) -> bool {
    ||| line_painted("BOOT FAILED".spec_bytes(), 40, 120, 5, px, py)
    ||| line_painted("No bootable OS on NOR flash".spec_bytes(), 40, 200, 2, px, py)
    ||| line_painted(vstd::utf8::encode_utf8(reason_text(msp, reset)), 40, 250, 2, px, py)
    ||| line_painted("MSP   ".spec_bytes(), 40, 310, 2, px, py)
    ||| line_painted(hex_text(msp), 112, 310, 2, px, py)
    ||| line_painted("RESET ".spec_bytes(), 40, 350, 2, px, py)
    ||| line_painted(hex_text(reset), 112, 350, 2, px, py)
}

/// Draws the full-screen fail panel (red text on black) for the rejected vector table
/// `(msp, reset)` and returns the LTDC set-up that shows it.
pub fn show_os_load_fail_screen(s: &mut Surface, msp: u32, reset: u32) -> (r: Vec<RegOp>)
    requires
        old(s).wf(),
    ensures
        final(s).wf(),
        final(s).spec_width() == old(s).spec_width(),
        final(s).spec_height() == old(s).spec_height(),
        final(s)@.dom() == old(s)@.dom(),
        forall|p: (int, int)|
            #[trigger] final(s)@.dom().contains(p) ==> final(s)@[p] == (if fail_text_painted(msp, reset, p.0, p.1) {
                COL_RED
            } else if 0 <= p.0 < FB_W && 0 <= p.1 < FB_H {
                COL_BLACK
            } else {
                old(s)@[p]
            }),
        r@ == ltdc_fb_ops(),
{
    let ghost orig = s@;
    fb_fill_screen(s, COL_BLACK);
    let ghost s0 = s@;
    fb_draw_text(s, 40, 120, "BOOT FAILED".as_bytes(), 5, COL_RED);
    let ghost s1 = s@;
    fb_draw_text(s, 40, 200, "No bootable OS on NOR flash".as_bytes(), 2, COL_RED);
    let ghost s2 = s@;
    let reason = fail_reason(msp, reset);
    fb_draw_text(s, 40, 250, reason.as_bytes(), 2, COL_RED);
    let ghost s3 = s@;
    let mut hex = [0u8; 10];
    let label_w: u32 = 6 * 6 * 2;
    hex_u32(msp, &mut hex);
    fb_draw_text(s, 40, 310, "MSP   ".as_bytes(), 2, COL_RED);
    let ghost s4 = s@;
    fb_draw_text(s, 40 + label_w, 310, hex.as_slice(), 2, COL_RED);
    let ghost s5 = s@;
    hex_u32(reset, &mut hex);
    fb_draw_text(s, 40, 350, "RESET ".as_bytes(), 2, COL_RED);
    let ghost s6 = s@;
    fb_draw_text(s, 40 + label_w, 350, hex.as_slice(), 2, COL_RED);
    proof {
        assert forall|p: (int, int)| #[trigger] s@.dom().contains(p) implies s@[p] == (if fail_text_painted(msp, reset, p.0, p.1) {
            COL_RED
        } else if 0 <= p.0 < FB_W && 0 <= p.1 < FB_H {
            COL_BLACK
        } else {
            orig[p]
        }) by {
            assert(s0.dom().contains(p) && s1.dom().contains(p) && s2.dom().contains(p));
            assert(s3.dom().contains(p) && s4.dom().contains(p) && s5.dom().contains(p) && s6.dom().contains(p));
        }
    }
    ltdc_enable_fb()
}

} // verus!
