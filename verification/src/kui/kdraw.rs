//! Framebuffer drawing: XRGB8888 pixels, coverage blending and rectangles.
use vstd::prelude::*;

verus! {

/// Double-buffered framebuffer. Drawing always targets `base()` (the back buffer).
pub struct Framebuffer {
    /// Addresses of the two buffers.
    pub bases: [usize; 2],
    /// Index of the buffer currently used for drawing (0 or 1).
    pub back_idx: u8,
    pub width: u64,
    pub height: u64,
    /// Bytes per line.
    pub pitch: u64,
    /// Bits per pixel.
    pub bpp: u16,
}

/// The framebuffer as installed for the whole system.
pub struct SyncFramebuffer(pub Framebuffer);

impl Framebuffer {
    /// Address of the back buffer.
    pub fn base(&self) -> (r: usize)
        ensures
            r == self.bases@[(self.back_idx & 1) as int],
    {
        let b = self.back_idx;
        let i = (b & 1) as usize;
        assert((b & 1) < 2) by (bit_vector);
        self.bases[i]
    }

    pub fn bytes_per_pixel(&self) -> (r: usize)
        ensures
            r == self.bpp / 8,
    {
        (self.bpp as usize) / 8
    }

    /// Byte offset of pixel `(x, y)` in the back buffer, or `None` when the pixel lies
    /// outside the framebuffer or the format is not 32 bits per pixel.
    pub fn pixel_offset(&self, x: u32, y: u32) -> (r: Option<u64>)
        requires
            self.height * self.pitch + self.width * 4 <= u64::MAX,
        ensures
            r == (if x >= self.width || y >= self.height || self.bpp / 8 != 4 {
                None::<u64>
            } else {
                Some((y * self.pitch + x * 4) as u64)
            }),
    {
        if (x as u64) >= self.width || (y as u64) >= self.height {
            return None;
        }
        if self.bytes_per_pixel() != 4 {
            return None;
        }
        proof {
            let (yy, hh, pp) = (y as int, self.height as int, self.pitch as int);
            assert(yy * pp <= hh * pp) by (nonlinear_arith)
                requires 0 <= yy < hh, pp >= 0;
        }
        Some((y as u64 * self.pitch) + (x as u64 * 4))
    }
}

/// 8-bit channel of an XRGB colour at bit offset `shift`.
pub open spec fn channel(c: u32, shift: u32) -> u32 {
    (c >> shift) & 0xff
}

/// Weighted mean of two channels, `a/255` of `s` and the rest of `d`.
pub open spec fn mix(s: u32, d: u32, a: u32) -> u32 {
    ((s * a + d * (255 - a)) / 255) as u32
}

/// `src` over `dst` with 8-bit coverage (0 keeps `dst`, 255 gives `src`).
pub open spec fn blend_spec(dst: u32, src: u32, cover: u8) -> u32 {
    if cover == 0 {
        dst
    } else if cover == 255 {
        src
    } else {
        let a = cover as u32;
        (mix(channel(src, 16), channel(dst, 16), a) << 16u32) | (mix(channel(src, 8), channel(dst, 8), a) << 8u32)
            | mix(channel(src, 0), channel(dst, 0), a)
    }
}

proof fn lemma_mix_bound(s: u32, d: u32, a: u32)
    requires
        s <= 255,
        d <= 255,
        a <= 255,
    ensures
        s * a + d * (255 - a) <= 255 * 255,
        mix(s, d, a) <= 255,
        mix(s, s, a) == s,
{
    assert(s * a + d * (255 - a) <= 255 * 255) by (nonlinear_arith)
        requires s <= 255, d <= 255, a <= 255;
    assert(s * a + s * (255 - a) == s * 255) by (nonlinear_arith);
}

/// Blends `src` over `dst` with 8-bit coverage `cover`.
pub fn blend_coverage(dst: u32, src: u32, cover: u8) -> (r: u32)
    ensures
        r == blend_spec(dst, src, cover),
{
    if cover == 0 {
        return dst;
    }
    if cover == 255 {
        return src;
    }
    let a = cover as u32;
    let inv = 255 - a;
    let db = dst & 0xff;
    let dg = (dst >> 8) & 0xff;
    let dr = (dst >> 16) & 0xff;
    let sb = src & 0xff;
    let sg = (src >> 8) & 0xff;
    let sr = (src >> 16) & 0xff;
    proof {
        assert(db <= 255 && dg <= 255 && dr <= 255 && sb <= 255 && sg <= 255 && sr <= 255) by (bit_vector)
            requires
                db == dst & 0xff,
                dg == (dst >> 8) & 0xff,
                dr == (dst >> 16) & 0xff,
                sb == src & 0xff,
                sg == (src >> 8) & 0xff,
                sr == (src >> 16) & 0xff;
        assert(db == channel(dst, 0) && sb == channel(src, 0)) by (bit_vector)
            requires db == dst & 0xff, sb == src & 0xff;
        lemma_mix_bound(sb, db, a);
        lemma_mix_bound(sg, dg, a);
        lemma_mix_bound(sr, dr, a);
    }
    let b = (sb * a + db * inv) / 255;
    let g = (sg * a + dg * inv) / 255;
    let r = (sr * a + dr * inv) / 255;
    (r << 16) | (g << 8) | b
}

/// Blending a colour over itself keeps its three channels (and clears the top byte).
pub proof fn lemma_blend_same_colour(c: u32, cover: u8)
    requires
        0 < cover < 255,
    ensures
        blend_spec(c, c, cover) == c & 0xFF_FFFF,
{
    let a = cover as u32;
    let (r, g, b) = (channel(c, 16), channel(c, 8), channel(c, 0));
    assert(r <= 255 && g <= 255 && b <= 255) by (bit_vector)
        requires r == (c >> 16u32) & 0xff, g == (c >> 8u32) & 0xff, b == (c >> 0u32) & 0xff;
    lemma_mix_bound(r, r, a);
    lemma_mix_bound(g, g, a);
    lemma_mix_bound(b, b, a);
    assert((r << 16u32) | (g << 8u32) | b == c & 0xFF_FFFF) by (bit_vector)
        requires r == (c >> 16u32) & 0xff, g == (c >> 8u32) & 0xff, b == (c >> 0u32) & 0xff;
}

proof fn lemma_mix_between(s: u32, d: u32, a: u32)
    requires
        s <= 255,
        d <= 255,
        a <= 255,
    ensures
        (if s <= d { s } else { d }) <= mix(s, d, a) <= (if s <= d { d } else { s }),
{
    let lo: int = if s <= d { s as int } else { d as int };
    let hi: int = if s <= d { d as int } else { s as int };
    let t = s * a + d * (255 - a);
    assert(lo * 255 <= t <= hi * 255) by (nonlinear_arith)
        requires lo <= s, lo <= d, s <= hi, d <= hi, a <= 255, t == s * a + d * (255 - a), lo >= 0;
    assert(lo <= t / 255 <= hi) by (nonlinear_arith)
        requires lo * 255 <= t <= hi * 255, lo >= 0;
    lemma_mix_bound(s, d, a);
}

/// Blending with coverage 0 keeps the pixel and with 255 replaces it; in between, each
/// of the red, green and blue channels of the result lies between the pixel's and the
/// colour's, and the top byte is clear.
pub proof fn lemma_blend_between(dst: u32, src: u32, cover: u8, sh: u32)
    requires
        sh == 0 || sh == 8 || sh == 16,
    ensures
        cover == 0 ==> blend_spec(dst, src, cover) == dst,
        cover == 255 ==> blend_spec(dst, src, cover) == src,
        0 < cover < 255 ==> blend_spec(dst, src, cover) >> 24u32 == 0,
        0 < cover < 255 ==> ({
            let c = (blend_spec(dst, src, cover) >> sh) & 0xff;
            let x = (dst >> sh) & 0xff;
            let y = (src >> sh) & 0xff;
            (if x <= y { x } else { y }) <= c <= (if x <= y { y } else { x })
        }),
{
    if 0 < cover < 255 {
        let a = cover as u32;
        let (sr, sg, sb) = (channel(src, 16), channel(src, 8), channel(src, 0));
        let (dr, dg, db) = (channel(dst, 16), channel(dst, 8), channel(dst, 0));
        assert(sr <= 255 && sg <= 255 && sb <= 255) by (bit_vector)
            requires sr == (src >> 16u32) & 0xff, sg == (src >> 8u32) & 0xff, sb == (src >> 0u32) & 0xff;
        assert(dr <= 255 && dg <= 255 && db <= 255) by (bit_vector)
            requires dr == (dst >> 16u32) & 0xff, dg == (dst >> 8u32) & 0xff, db == (dst >> 0u32) & 0xff;
        let r = mix(sr, dr, a);
        let g = mix(sg, dg, a);
        let b = mix(sb, db, a);
        lemma_mix_between(sr, dr, a);
        lemma_mix_between(sg, dg, a);
        lemma_mix_between(sb, db, a);
        let v = (r << 16u32) | (g << 8u32) | b;
        assert(v == blend_spec(dst, src, cover));
        assert(v >> 24u32 == 0 && (v >> 16u32) & 0xff == r && (v >> 8u32) & 0xff == g && (v >> 0u32) & 0xff == b)
            by (bit_vector)
            requires r <= 255, g <= 255, b <= 255, v == (r << 16u32) | (g << 8u32) | b;
    }
}

/// `a + b`, saturating at `u32::MAX`.
pub open spec fn sat(a: u32, b: u32) -> int {
    if a + b > u32::MAX {
        u32::MAX as int
    } else {
        a + b
    }
}

/// The smaller of two integers.
pub open spec fn min_int(a: int, b: int) -> int {
    if a <= b {
        a
    } else {
        b
    }
}

/// Pixel `(px, py)` is painted by `draw_rect(x, y, w, h, t, _)`: the whole rectangle
/// when `t == 0`, otherwise a border of thickness `t` inside it (coordinates add up
/// saturating at `u32::MAX`).
pub open spec fn rect_painted(x: u32, y: u32, w: u32, h: u32, t: u16, px: int, py: int) -> bool {
    let xe = sat(x, w);
    let ye = sat(y, h);
    let t32 = t as u32;
    if w == 0 || h == 0 {
        false
    } else if t == 0 {
        x <= px < xe && y <= py < ye
    } else {
        ||| (y <= py < min_int(sat(y, t32), ye) && x <= px < xe)
        ||| (h > t32 && y + h - t32 <= py < ye && x <= px < xe)
        ||| (y <= py < ye && x <= px < min_int(sat(x, t32), xe))
        ||| (w > t32 && y <= py < ye && x + w - t32 <= px < xe)
    }
}

proof fn lemma_index(w: int, h: int, x: int, y: int)
    requires
        0 <= x < w,
        0 <= y < h,
    ensures
        0 <= y * w + x < w * h,
        y * w + x + 1 <= w * h,
{
    assert(0 <= y * w) by (nonlinear_arith)
        requires 0 <= y, 0 <= w;
    assert(y * w + x < w * h) by (nonlinear_arith)
        requires 0 <= x < w, 0 <= y < h;
}

proof fn lemma_index_inj(w: int, x1: int, y1: int, x2: int, y2: int)
    requires
        0 <= x1 < w,
        0 <= x2 < w,
        0 <= y1,
        0 <= y2,
        y1 * w + x1 == y2 * w + x2,
    ensures
        x1 == x2,
        y1 == y2,
{
    if y1 < y2 {
        assert(y1 * w + w <= y2 * w) by (nonlinear_arith)
            requires y1 < y2, w >= 0;
    } else if y2 < y1 {
        assert(y2 * w + w <= y1 * w) by (nonlinear_arith)
            requires y2 < y1, w >= 0;
    }
}

/// A 32-bit pixel surface (row-major, one `u32` per pixel) that drawing targets.
pub struct Surface {
    width: u32,
    height: u32,
    pixels: Vec<u32>,
}

impl View for Surface {
    /// Colour of every pixel `(x, y)` inside the surface.
    type V = Map<(int, int), u32>;

    closed spec fn view(&self) -> Map<(int, int), u32> {
        Map::new(
            |p: (int, int)| 0 <= p.0 < self.width && 0 <= p.1 < self.height,
            |p: (int, int)| self.pixels@[p.1 * self.width + p.0],
        )
    }
}

impl Surface {
    pub closed spec fn spec_width(&self) -> u32 {
        self.width
    }

    pub closed spec fn spec_height(&self) -> u32 {
        self.height
    }

    /// The pixel store matches the dimensions.
    pub closed spec fn wf(&self) -> bool {
        self.pixels@.len() == self.width * self.height
    }

    /// Pixel `(x, y)` lies on the surface.
    pub open spec fn inside(&self, x: int, y: int) -> bool {
        0 <= x < self.spec_width() && 0 <= y < self.spec_height()
    }

    /// The pixels of the surface are exactly the points inside it.
    pub proof fn lemma_dom(&self)
        ensures
            forall|p: (int, int)| #[trigger] self@.dom().contains(p) == self.inside(p.0, p.1),
    {
    }

    /// A black surface of `width` by `height` pixels.
    pub fn new(width: u32, height: u32) -> (r: Surface)
        requires
            width * height <= usize::MAX,
        ensures
            r.wf(),
            r.spec_width() == width,
            r.spec_height() == height,
            forall|p: (int, int)| #[trigger] r@.dom().contains(p) == r.inside(p.0, p.1),
            forall|p: (int, int)| r@.dom().contains(p) ==> #[trigger] r@[p] == 0,
    {
        let n = (width as usize) * (height as usize);
        let pixels = vec![0u32; n];
        let r = Surface { width, height, pixels };
        proof {
            assert forall|p: (int, int)| r@.dom().contains(p) implies #[trigger] r@[p] == 0 by {
                lemma_index(width as int, height as int, p.0, p.1);
            }
        }
        r
    }

    pub fn width(&self) -> (r: u32)
        ensures
            r == self.spec_width(),
    {
        self.width
    }

    pub fn height(&self) -> (r: u32)
        ensures
            r == self.spec_height(),
    {
        self.height
    }

    /// Stores `color` at `(x, y)`; pixels outside the surface are ignored.
    pub fn put_pixel(&mut self, x: u32, y: u32, color: u32)
        requires
            old(self).wf(),
        ensures
            final(self).wf(),
            final(self).spec_width() == old(self).spec_width(),
            final(self).spec_height() == old(self).spec_height(),
            final(self)@ == (if old(self).inside(x as int, y as int) {
                old(self)@.insert((x as int, y as int), color)
            } else {
                old(self)@
            }),
    {
        let n = self.pixels.len();
        if x < self.width && y < self.height {
            proof {
                lemma_index(self.width as int, self.height as int, x as int, y as int);
            }
            let i = (y as usize) * (self.width as usize) + (x as usize);
            self.pixels.set(i, color);
            proof {
                let w = self.width as int;
                assert forall|p: (int, int)| #[trigger] self@.dom().contains(p) implies self@[p] == old(
                    self,
                )@.insert((x as int, y as int), color)[p] by {
                    lemma_index(w, self.height as int, p.0, p.1);
                    if p != (x as int, y as int) {
                        if p.1 * w + p.0 == i {
                            lemma_index_inj(w, p.0, p.1, x as int, y as int);
                        }
                    }
                }
                assert(self@ =~= old(self)@.insert((x as int, y as int), color));
            }
        } else {
            proof {
                assert(self@ =~= old(self)@);
            }
        }
    }

    /// Colour at `(x, y)`, or 0 outside the surface.
    pub fn get_pixel(&self, x: u32, y: u32) -> (r: u32)
        requires
            self.wf(),
        ensures
            r == (if self.inside(x as int, y as int) {
                self@[(x as int, y as int)]
            } else {
                0
            }),
    {
        let n = self.pixels.len();
        if x < self.width && y < self.height {
            proof {
                lemma_index(self.width as int, self.height as int, x as int, y as int);
            }
            self.pixels[(y as usize) * (self.width as usize) + (x as usize)]
        } else {
            0
        }
    }

    /// One pixel of anti-aliased text: nothing at zero coverage, `color` itself from
    /// coverage 250 up, otherwise `color` blended over the pixel. Pixels outside the
    /// surface are ignored.
    pub fn plot_coverage(&mut self, x: u32, y: u32, color: u32, coverage: u8)
        requires
            old(self).wf(),
        ensures
            final(self).wf(),
            final(self).spec_width() == old(self).spec_width(),
            final(self).spec_height() == old(self).spec_height(),
            final(self)@ == (if coverage == 0 || !old(self).inside(x as int, y as int) {
                old(self)@
            } else if coverage >= 250 {
                old(self)@.insert((x as int, y as int), color)
            } else {
                old(self)@.insert(
                    (x as int, y as int),
                    blend_spec(old(self)@[(x as int, y as int)], color, coverage),
                )
            }),
    {
        if coverage == 0 {
            return;
        }
        if coverage >= 250 {
            self.put_pixel(x, y, color);
        } else {
            let dst = self.get_pixel(x, y);
            self.put_pixel(x, y, blend_coverage(dst, color, coverage));
        }
    }

    /// Paints every surface pixel in `[x0, x1) x [y0, y1)`.
    pub fn fill_span(&mut self, x0: u32, x1: u32, y0: u32, y1: u32, col: u32)
        requires
            old(self).wf(),
        ensures
            final(self).wf(),
            final(self).spec_width() == old(self).spec_width(),
            final(self).spec_height() == old(self).spec_height(),
            final(self)@.dom() == old(self)@.dom(),
            forall|p: (int, int)|
                #[trigger] final(self)@.dom().contains(p) ==> final(self)@[p] == (if x0 <= p.0 < x1 && y0
                    <= p.1 < y1 {
                    col
                } else {
                    old(self)@[p]
                }),
    {
        let ghost orig = self@;
        let mut row = y0;
        while row < y1
            invariant
                self.wf(),
                self.spec_width() == old(self).spec_width(),
                self.spec_height() == old(self).spec_height(),
                self@.dom() == orig.dom(),
                orig == old(self)@,
                y0 <= row <= y1 || (y1 <= y0 && row == y0),
                forall|p: (int, int)|
                    #[trigger] self@.dom().contains(p) ==> self@[p] == (if x0 <= p.0 < x1 && y0 <= p.1
                        < row {
                        col
                    } else {
                        orig[p]
                    }),
            decreases y1 - row,
        {
            let mut c = x0;
            while c < x1
                invariant
                    self.wf(),
                    self.spec_width() == old(self).spec_width(),
                    self.spec_height() == old(self).spec_height(),
                    self@.dom() == orig.dom(),
                    y0 <= row < y1,
                    x0 <= c <= x1 || (x1 <= x0 && c == x0),
                    forall|p: (int, int)|
                        #[trigger] self@.dom().contains(p) ==> self@[p] == (if (x0 <= p.0 < x1 && y0
                            <= p.1 < row) || (p.1 == row && x0 <= p.0 < c) {
                            col
                        } else {
                            orig[p]
                        }),
                decreases x1 - c,
            {
                self.put_pixel(c, row, col);
                c = c + 1;
            }
            row = row + 1;
        }
    }

    /// Draws a rectangle of colour `col`: filled when `t == 0`, otherwise a border of
    /// thickness `t` drawn inside the rectangle. Pixels off the surface are skipped.
    pub fn draw_rect(&mut self, x: u32, y: u32, w: u32, h: u32, t: u16, col: u32)
        requires
            old(self).wf(),
            t != 0 && h > t ==> y + h <= u32::MAX,
            t != 0 && w > t ==> x + w <= u32::MAX,
        ensures
            final(self).wf(),
            final(self).spec_width() == old(self).spec_width(),
            final(self).spec_height() == old(self).spec_height(),
            final(self)@.dom() == old(self)@.dom(),
            forall|p: (int, int)|
                #[trigger] final(self)@.dom().contains(p) ==> final(self)@[p] == (if rect_painted(
                    x,
                    y,
                    w,
                    h,
                    t,
                    p.0,
                    p.1,
                ) {
                    col
                } else {
                    old(self)@[p]
                }),
    {
        if w == 0 || h == 0 {
            return;
        }
        let xe = x.saturating_add(w);
        let ye = y.saturating_add(h);
        if t == 0 {
            self.fill_span(x, xe, y, ye, col);
            return;
        }
        let t = t as u32;
        let ts = y.saturating_add(t);
        let top_end = if ts < ye { ts } else { ye };
        self.fill_span(x, xe, y, top_end, col);
        if h > t {
            let y1 = y + h - t;
            self.fill_span(x, xe, y1, ye, col);
        }
        let ls = x.saturating_add(t);
        let left_end = if ls < xe { ls } else { xe };
        self.fill_span(x, left_end, y, ye, col);
        if w > t {
            let x1 = x + w - t;
            self.fill_span(x1, xe, y, ye, col);
        }
    }
}

} // verus!
