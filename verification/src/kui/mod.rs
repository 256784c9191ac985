//! Kernel UI: framebuffer drawing, the window chrome and the memory read-out.
use vstd::prelude::*;

use crate::heap::stats::HeapStats;
use vstd::string::StringExecFns;

use self::kdraw::{Surface, rect_painted};

pub mod kdraw;

verus! {

/// Chrome colour (frame and title).
pub const CHROME: u32 = 0x00C5_003C;

/// Memory read-out colour (soft cyan, as the process rows).
pub const MEM_COLOR: u32 = 0x0055_EAD4;

pub const KIB: usize = 1024;

pub const MIB: usize = 1024 * 1024;

/// Decimal digit `d < 10` as a character.
pub open spec fn digit_char(d: int) -> char {
    (48 + d) as char
}

/// Decimal representation of `n` without leading zeros.
pub open spec fn decimal(n: nat) -> Seq<char>
    decreases n,
{
    if n < 10 {
        seq![digit_char(n as int)]
    } else {
        decimal(n / 10) + seq![digit_char((n % 10) as int)]
    }
}

/// The number a string of decimal digits stands for.
pub open spec fn digits_value(s: Seq<char>) -> int
    decreases s.len(),
{
    if s.len() == 0 {
        0
    } else {
        digits_value(s.drop_last()) * 10 + (s.last() as int - 48)
    }
}

/// The decimal text of `n` is made of the digits `0`-`9`, reads back as `n`, and has
/// no leading zero.
pub proof fn lemma_decimal_reads_back(n: nat)
    ensures
        decimal(n).len() >= 1,
        forall|i: int| 0 <= i < decimal(n).len() ==> '0' <= #[trigger] decimal(n)[i] <= '9',
        digits_value(decimal(n)) == n,
        n >= 1 ==> decimal(n)[0] != '0',
    decreases n,
{
    if n < 10 {
        let t = decimal(n);
        assert(t.drop_last() =~= Seq::<char>::empty());
        assert(t.last() as int == 48 + n);
        assert(digits_value(Seq::<char>::empty()) == 0);
        assert(digits_value(t) == digits_value(t.drop_last()) * 10 + (t.last() as int - 48));
    } else {
        let m = n / 10;
        lemma_decimal_reads_back(m);
        let t = decimal(n);
        let c = digit_char((n % 10) as int);
        assert(t == decimal(m) + seq![c]);
        assert(t.drop_last() =~= decimal(m));
        assert(t.last() == c);
        assert(c as int == 48 + n % 10);
        assert(m * 10 + n % 10 == n);
        assert(digits_value(t) == digits_value(t.drop_last()) * 10 + (t.last() as int - 48));
        assert forall|i: int| 0 <= i < t.len() implies '0' <= #[trigger] t[i] <= '9' by {
            if i < decimal(m).len() {
                assert(t[i] == decimal(m)[i]);
            }
        }
        assert(t[0] == decimal(m)[0]);
    }
}

fn digit_str(d: usize) -> (r: &'static str)
    requires
        d < 10,
    ensures
        r@ == seq![digit_char(d as int)],
{
    proof {
        reveal_strlit("0");
        reveal_strlit("1");
        reveal_strlit("2");
        reveal_strlit("3");
        reveal_strlit("4");
        reveal_strlit("5");
        reveal_strlit("6");
        reveal_strlit("7");
        reveal_strlit("8");
        reveal_strlit("9");
    }
    match d {
        0 => "0",
        1 => "1",
        2 => "2",
        3 => "3",
        4 => "4",
        5 => "5",
        6 => "6",
        7 => "7",
        8 => "8",
        _ => "9",
    }
}

/// Appends the decimal representation of `n`.
pub(crate) fn push_decimal(s: &mut String, n: usize)
    ensures
        final(s)@ == old(s)@ + decimal(n as nat),
    decreases n,
{
    if n >= 10 {
        push_decimal(s, n / 10);
        s.append(digit_str(n % 10));
    } else {
        s.append(digit_str(n));
    }
}

/// Human-readable size: mebibytes or kibibytes with one (truncated) decimal, or bytes.
pub open spec fn bytes_text(n: usize) -> Seq<char> {
    if n >= MIB {
        decimal((n / MIB) as nat) + "."@ + decimal((((n % MIB) * 10) / MIB as int) as nat) + "M"@
    } else if n >= KIB {
        decimal((n / KIB) as nat) + "."@ + decimal((((n % KIB) * 10) / KIB as int) as nat) + "K"@
    } else {
        decimal(n as nat) + "B"@
    }
}

/// `text` is `w.f` followed by `unit`, where `w` counts whole units of `size` bytes in
/// `n` and `f` the whole tenths of a unit left over.
pub open spec fn sized_as(text: Seq<char>, n: int, size: int, unit: Seq<char>) -> bool {
    exists|w: nat, f: nat|
        #![trigger decimal(w), decimal(f)]
        text == decimal(w) + "."@ + decimal(f) + unit && w * size <= n < (w + 1) * size && f < 10 && f * size
            <= (n - w * size) * 10 < (f + 1) * size
}

proof fn lemma_sized(n: int, size: int, unit: Seq<char>)
    requires
        n >= size > 0,
    ensures
        sized_as(
            decimal((n / size) as nat) + "."@ + decimal((((n % size) * 10) / size) as nat) + unit,
            n,
            size,
            unit,
        ),
{
    let w = n / size;
    let r = n % size;
    let f = (r * 10) / size;
    vstd::arithmetic::div_mod::lemma_fundamental_div_mod(n, size);
    vstd::arithmetic::div_mod::lemma_fundamental_div_mod(r * 10, size);
    assert(0 <= r < size);
    assert(w * size <= n < (w + 1) * size) by (nonlinear_arith)
        requires n == size * w + r, 0 <= r < size;
    assert(w >= 1) by (nonlinear_arith)
        requires n == size * w + r, 0 <= r < size, n >= size;
    assert(0 <= r * 10 % size < size);
    assert(f * size <= r * 10 < (f + 1) * size) by (nonlinear_arith)
        requires r * 10 == size * f + (r * 10) % size, 0 <= (r * 10) % size < size;
    assert(0 <= f < 10) by (nonlinear_arith)
        requires f * size <= r * 10 < (f + 1) * size, 0 <= r < size, size > 0;
    assert(n - w * size == r) by (nonlinear_arith)
        requires n == size * w + r;
    let text = decimal(w as nat) + "."@ + decimal(f as nat) + unit;
    assert(text == decimal(w as nat) + "."@ + decimal(f as nat) + unit && w * size <= n < (w + 1) * size && f < 10
        && f * size <= (n - w * size) * 10 < (f + 1) * size);
}

/// The size text names the right unit and the truncated amount: from 1 MiB up it is
/// whole mebibytes, a point, whole tenths and `M`; from 1 KiB up the same in kibibytes
/// with `K`; below that the byte count and `B`.
pub proof fn lemma_bytes_text_value(n: usize)
    ensures
        n >= 1024 * 1024 ==> sized_as(bytes_text(n), n as int, 1048576int, "M"@),
        1024 <= n < 1024 * 1024 ==> sized_as(bytes_text(n), n as int, 1024int, "K"@),
        n < 1024 ==> bytes_text(n) == decimal(n as nat) + "B"@,
{
    if n >= MIB {
        lemma_sized(n as int, 1048576int, "M"@);
    } else if n >= KIB {
        lemma_sized(n as int, 1024int, "K"@);
    }
}

/// Human-readable size: `"{whole}.{tenth}M"`, `"{whole}.{tenth}K"` or `"{n}B"`.
pub fn format_bytes(n: usize) -> (r: String)
    ensures
        r@ == bytes_text(n),
{
    let mut s = String::new();
    if n >= MIB {
        let whole = n / MIB;
        let frac = ((n % MIB) * 10) / MIB;
        push_decimal(&mut s, whole);
        s.append(".");
        push_decimal(&mut s, frac);
        s.append("M");
    } else if n >= KIB {
        let whole = n / KIB;
        let frac = ((n % KIB) * 10) / KIB;
        push_decimal(&mut s, whole);
        s.append(".");
        push_decimal(&mut s, frac);
        s.append("K");
    } else {
        push_decimal(&mut s, n);
        s.append("B");
    }
    s
}

/// The SDRAM read-out: `"SDRAM  used {used}  free {free}  total {total}"`.
pub open spec fn memory_text(st: HeapStats) -> Seq<char> {
    "SDRAM  used "@ + bytes_text(st.used) + "  free "@ + bytes_text(st.free) + "  total "@
        + bytes_text(st.total)
}

/// Text of the free / used / total SDRAM read-out at the top right.
pub fn memory_tracker_text(st: HeapStats) -> (r: String)
    ensures
        r@ == memory_text(st),
{
    let mut s = String::from_str("SDRAM  used ");
    let u = format_bytes(st.used);
    s.append(u.as_str());
    s.append("  free ");
    let f = format_bytes(st.free);
    s.append(f.as_str());
    s.append("  total ");
    let t = format_bytes(st.total);
    s.append(t.as_str());
    s
}

/// Clears the back buffer and draws the content frame (2 px, chrome colour) from
/// (10, 55) to 10 px from the right and bottom edges.
pub fn kbackground(s: &mut Surface)
    requires
        old(s).wf(),
        old(s).spec_width() >= 20,
        old(s).spec_height() >= 65,
    ensures
        final(s).wf(),
        final(s).spec_width() == old(s).spec_width(),
        final(s).spec_height() == old(s).spec_height(),
        final(s)@.dom() == old(s)@.dom(),
        forall|p: (int, int)|
            #[trigger] final(s)@.dom().contains(p) ==> final(s)@[p] == (if rect_painted(
                10,
                55,
                (old(s).spec_width() - 20) as u32,
                (old(s).spec_height() - 65) as u32,
                2,
                p.0,
                p.1,
            ) {
                CHROME
            } else {
                0
            }),
{
    let w = s.width();
    let h = s.height();
    proof {
        s.lemma_dom();
    }
    s.fill_span(0, w, 0, h, 0);
    let ghost cleared = s@;
    assert(forall|p: (int, int)| #[trigger] cleared.dom().contains(p) ==> cleared[p] == 0);
    s.draw_rect(10, 55, w - 10 * 2, h - 65, 2, CHROME);
}

/// `a + b`, or `u32::MAX` when that overflows.
pub open spec fn sat_add_u32(a: u32, b: u32) -> u32 {
    if a + b <= u32::MAX {
        (a + b) as u32
    } else {
        u32::MAX
    }
}

/// Left edge of the memory read-out, whose text is `text_width` px wide: the text
/// ends 16 px before the right edge of the screen.
pub fn memory_tracker_x(fb_width: u32, text_width: u32) -> (r: u32)
    requires
        sat_add_u32(text_width, 16) <= fb_width,
    ensures
        r == fb_width - sat_add_u32(text_width, 16),
{
    fb_width - text_width.saturating_add(16)
}

/// Baseline row of the memory read-out (level with the title band).
pub const MEMORY_TRACKER_Y: u32 = 18;

/// Version tag: `"{name} v{version}"`.
pub fn version_label(name: &str, version: &str) -> (r: String)
    ensures
        r@ == name@ + " v"@ + version@,
{
    let mut s = String::from_str(name);
    s.append(" v");
    s.append(version);
    s
}

/// Top-left corner of the version tag, whose text is `text_width` px wide and whose
/// line box is `line_h` px high: it ends 24 px before the right edge, and sits 6 px
/// above the inner floor of the content frame (12 px above the bottom edge).
pub fn version_origin(fb_width: u32, fb_height: u64, text_width: u32, line_h: u32) -> (r: (u32, u32))
    requires
        sat_add_u32(text_width, 24) <= fb_width,
    ensures
        r.0 == fb_width - sat_add_u32(text_width, 24),
        r.1 == (if fb_height >= 18 + line_h {
            (fb_height - 18 - line_h) as u32
        } else {
            0
        }),
{
    let y = fb_height.saturating_sub(12 + 6 + line_h as u64) as u32;
    let x = fb_width - text_width.saturating_add(24);
    (x, y)
}

} // verus!
