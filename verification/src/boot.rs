//! Stage-0 bootloader logic: validating the OS vector table in NOR, the fail panel
//! (text, glyphs, hex dump) and the register sequences of the bring-up.
use vstd::prelude::*;

verus! {

/// Where ArmOS's vector table sits (QUADSPI NOR, execute in place).
pub const OS_VECTOR_TABLE: u32 = 0x9000_0000;

/// 5x7 glyphs for ASCII 0x20..=0x5F, column-major, bit 0 = top row.
pub const FONT5X7: [[u8; 5]; 64] = [
    [0x00, 0x00, 0x00, 0x00, 0x00],
    [0x00, 0x00, 0x5F, 0x00, 0x00],
    [0x00, 0x07, 0x00, 0x07, 0x00],
    [0x14, 0x7F, 0x14, 0x7F, 0x14],
    [0x24, 0x2A, 0x7F, 0x2A, 0x12],
    [0x23, 0x13, 0x08, 0x64, 0x62],
    [0x36, 0x49, 0x55, 0x22, 0x50],
    [0x00, 0x05, 0x03, 0x00, 0x00],
    [0x00, 0x1C, 0x22, 0x41, 0x00],
    [0x00, 0x41, 0x22, 0x1C, 0x00],
    [0x14, 0x08, 0x3E, 0x08, 0x14],
    [0x08, 0x08, 0x3E, 0x08, 0x08],
    [0x00, 0x50, 0x30, 0x00, 0x00],
    [0x08, 0x08, 0x08, 0x08, 0x08],
    [0x00, 0x60, 0x60, 0x00, 0x00],
    [0x20, 0x10, 0x08, 0x04, 0x02],
    [0x3E, 0x51, 0x49, 0x45, 0x3E],
    [0x00, 0x42, 0x7F, 0x40, 0x00],
    [0x42, 0x61, 0x51, 0x49, 0x46],
    [0x21, 0x41, 0x45, 0x4B, 0x31],
    [0x18, 0x14, 0x12, 0x7F, 0x10],
    [0x27, 0x45, 0x45, 0x45, 0x39],
    [0x3C, 0x4A, 0x49, 0x49, 0x30],
    [0x01, 0x71, 0x09, 0x05, 0x03],
    [0x36, 0x49, 0x49, 0x49, 0x36],
    [0x06, 0x49, 0x49, 0x29, 0x1E],
    [0x00, 0x36, 0x36, 0x00, 0x00],
    [0x00, 0x56, 0x36, 0x00, 0x00],
    [0x08, 0x14, 0x22, 0x41, 0x00],
    [0x14, 0x14, 0x14, 0x14, 0x14],
    [0x00, 0x41, 0x22, 0x14, 0x08],
    [0x02, 0x01, 0x51, 0x09, 0x06],
    [0x32, 0x49, 0x79, 0x41, 0x3E],
    [0x7E, 0x11, 0x11, 0x11, 0x7E],
    [0x7F, 0x49, 0x49, 0x49, 0x36],
    [0x3E, 0x41, 0x41, 0x41, 0x22],
    [0x7F, 0x41, 0x41, 0x22, 0x1C],
    [0x7F, 0x49, 0x49, 0x49, 0x41],
    [0x7F, 0x09, 0x09, 0x09, 0x01],
    [0x3E, 0x41, 0x49, 0x49, 0x7A],
    [0x7F, 0x08, 0x08, 0x08, 0x7F],
    [0x00, 0x41, 0x7F, 0x41, 0x00],
    [0x20, 0x40, 0x41, 0x3F, 0x01],
    [0x7F, 0x08, 0x14, 0x22, 0x41],
    [0x7F, 0x40, 0x40, 0x40, 0x40],
    [0x7F, 0x02, 0x0C, 0x02, 0x7F],
    [0x7F, 0x04, 0x08, 0x10, 0x7F],
    [0x3E, 0x41, 0x41, 0x41, 0x3E],
    [0x7F, 0x09, 0x09, 0x09, 0x06],
    [0x3E, 0x41, 0x51, 0x21, 0x5E],
    [0x7F, 0x09, 0x19, 0x29, 0x46],
    [0x46, 0x49, 0x49, 0x49, 0x31],
    [0x01, 0x01, 0x7F, 0x01, 0x01],
    [0x3F, 0x40, 0x40, 0x40, 0x3F],
    [0x1F, 0x20, 0x40, 0x20, 0x1F],
    [0x3F, 0x40, 0x38, 0x40, 0x3F],
    [0x63, 0x14, 0x08, 0x14, 0x63],
    [0x07, 0x08, 0x70, 0x08, 0x07],
    [0x61, 0x51, 0x49, 0x45, 0x43],
    [0x00, 0x7F, 0x41, 0x41, 0x00],
    [0x02, 0x04, 0x08, 0x10, 0x20],
    [0x00, 0x41, 0x41, 0x7F, 0x00],
    [0x04, 0x02, 0x01, 0x02, 0x04],
    [0x40, 0x40, 0x40, 0x40, 0x40],
];

/// Glyph shown for characters outside the table: a solid block.
pub open spec fn block_glyph() -> Seq<u8> {
    seq![0x7F, 0x7F, 0x7F, 0x7F, 0x7F]
}

/// Lower-case letters are drawn as upper case.
pub open spec fn fold_case(c: u8) -> u8 {
    if 0x61 <= c <= 0x7A {
        (c - 0x20) as u8
    } else {
        c
    }
}

/// The glyph drawn for byte `c`.
pub open spec fn glyph_spec(c: u8) -> Seq<u8> {
    let u = fold_case(c);
    if 0x20 <= u <= 0x5F {
        FONT5X7[u - 0x20]@
    } else {
        block_glyph()
    }
}

/// The 5x7 glyph of byte `c` (lower case folded to upper case, a solid block when
/// missing).
pub fn glyph5x7(c: u8) -> (r: [u8; 5])
    ensures
        r@ == glyph_spec(c),
{
    let u = if c >= 0x61u8 && c <= 0x7Au8 {
        c - 0x20
    } else {
        c
    };
    if u >= 0x20 && u <= 0x5F {
        FONT5X7[(u - 0x20) as usize]
    } else {
        let b = [0x7Fu8; 5];
        proof {
            assert(b@ =~= block_glyph());
        }
        b
    }
}

/// Upper-case hexadecimal digit for `d < 16`.
pub open spec fn hex_digit(d: u32) -> u8 {
    if d < 10 {
        (0x30 + d) as u8
    } else {
        (0x41 + d - 10) as u8
    }
}

/// Nibble `i` of `v`, counted from the most significant one.
pub open spec fn nibble(v: u32, i: int) -> u32 {
    (v >> ((28 - 4 * i) as u32)) & 0xF
}

/// `v` as the fail panel prints it: `0x` and eight upper-case hexadecimal digits.
pub open spec fn hex_text(v: u32) -> Seq<u8> {
    seq![0x30u8, 0x78u8] + Seq::new(8, |i: int| hex_digit(nibble(v, i)))
}

/// Writes `v` as `0x` followed by eight upper-case hexadecimal digits.
pub fn hex_u32(v: u32, out: &mut [u8; 10])
    ensures
        final(out)@[0] == 0x30,
        final(out)@[1] == 0x78,
        forall|i: int| 0 <= i < 8 ==> #[trigger] final(out)@[2 + i] == hex_digit(nibble(v, i)),
        final(out)@ == hex_text(v),
{
    out[0] = 0x30u8;
    out[1] = 0x78u8;
    let mut i: usize = 0;
    while i < 8
        invariant
            0 <= i <= 8,
            out@.len() == 10,
            out@[0] == 0x30,
            out@[1] == 0x78,
            forall|k: int| 0 <= k < i ==> #[trigger] out@[2 + k] == hex_digit(nibble(v, k)),
        decreases 8 - i,
    {
        let shift = (28 - i * 4) as u32;
        let d = (v >> shift) & 0xF;
        assert(d < 16) by (bit_vector)
            requires d == (v >> shift) & 0xF;
        let ch: u8 = if d < 10 {
            0x30u8 + d as u8
        } else {
            0x41u8 + (d as u8 - 10)
        };
        out[2 + i] = ch;
        proof {
            assert(nibble(v, i as int) == d);
        }
        i = i + 1;
    }
    proof {
        let h = hex_text(v);
        assert forall|j: int| 0 <= j < 10 implies out@[j] == h[j] by {
            if j >= 2 {
                assert(out@[2 + (j - 2)] == hex_digit(nibble(v, j - 2)));
            }
        }
        assert(out@ =~= h);
    }
}

/// The stack pointer lies in the 64 MiB SDRAM window and is 8-byte aligned.
pub open spec fn msp_ok(msp: u32) -> bool {
    0xC000_0000 <= msp <= 0xC400_0000 && msp % 8 == 0
}

/// The reset vector points into NOR execute-in-place, has the Thumb bit set and is
/// not erased flash.
pub open spec fn reset_ok(reset: u32) -> bool {
    0x9000_0000 <= reset - reset % 2 < 0x9800_0000 && reset % 2 == 1 && reset != 0xFFFF_FFFF
}

/// The OS vector table (initial MSP, reset vector) can be jumped to.
pub fn os_vectors_look_valid(msp: u32, reset: u32) -> (r: bool)
    ensures
        r == (msp_ok(msp) && reset_ok(reset)),
{
    let msp_ok = 0xC000_0000 <= msp && msp <= 0xC400_0000 && (msp & 7) == 0;
    let thr = reset & !1u32;
    let reset_ok = 0x9000_0000 <= thr && thr < 0x9800_0000 && (reset & 1) == 1 && reset
        != 0xFFFF_FFFF;
    proof {
        assert((msp & 7) == (msp % 8)) by (bit_vector);
        assert((reset & 1) == reset % 2) by (bit_vector);
        assert(thr == reset - reset % 2) by (bit_vector)
            requires thr == reset & !1u32;
    }
    msp_ok && reset_ok
}

/// The vector table holds the empty or erased-flash pattern in one of its words.
pub open spec fn looks_erased(msp: u32, reset: u32) -> bool {
    msp == 0 || msp == 0xFFFF_FFFF || reset == 0 || reset == 0xFFFF_FFFF
}

/// The fail-panel explanation for a rejected vector table: an empty or erased image,
/// then a bad stack pointer, then a missing Thumb bit, then a reset vector outside
/// NOR; otherwise a generic rejection.
pub open spec fn reason_text(msp: u32, reset: u32) -> Seq<char> {
    if looks_erased(msp, reset) {
        "NOR empty or erased (no image)"@
    } else if !msp_ok(msp) {
        "Invalid MSP (need SDRAM stack)"@
    } else if reset % 2 == 0 {
        "Reset vector missing Thumb bit"@
    } else if !(0x9000_0000 <= reset - 1 < 0x9800_0000) {
        "Reset vector not in NOR XIP"@
    } else {
        "Vector table rejected"@
    }
}

/// Why the vector table was rejected, as shown on the fail panel.
pub fn fail_reason(msp: u32, reset: u32) -> (r: &'static str)
    ensures
        r@ == reason_text(msp, reset),
{
    let erased = msp == 0xFFFF_FFFF && reset == 0xFFFF_FFFF;
    let mostly_erased = msp == 0 || msp == 0xFFFF_FFFF || reset == 0 || reset == 0xFFFF_FFFF;
    if erased || mostly_erased {
        return "NOR empty or erased (no image)";
    }
    proof {
        assert((msp & 7) == (msp % 8)) by (bit_vector);
        assert((reset & 1) == reset % 2) by (bit_vector);
    }
    let msp_ok = 0xC000_0000 <= msp && msp <= 0xC400_0000 && (msp & 7) == 0;
    if !msp_ok {
        return "Invalid MSP (need SDRAM stack)";
    }
    if reset & 1 == 0 {
        return "Reset vector missing Thumb bit";
    }
    let thr = reset & !1u32;
    proof {
        assert(thr == reset - 1) by (bit_vector)
            requires thr == reset & !1u32, (reset & 1) == 1;
    }
    if !(0x9000_0000 <= thr && thr < 0x9800_0000) {
        return "Reset vector not in NOR XIP";
    }
    "Vector table rejected"
}

/// A table the bootloader accepts never gets a fail reason about emptiness, the stack
/// or the Thumb bit: whenever `os_vectors_look_valid` holds, the image is neither empty
/// nor erased.
pub proof fn lemma_valid_vectors_not_erased(msp: u32, reset: u32)
    requires
        msp_ok(msp) && reset_ok(reset),
    ensures
        !looks_erased(msp, reset),
{
}

/// The bootloader accepts exactly the vector tables whose stack pointer lies in the
/// SDRAM window `0xC000_0000 ..= 0xC400_0000` with its three low bits clear, and whose
/// reset vector has the Thumb bit set and, with that bit cleared, points into the NOR
/// execute-in-place window `0x9000_0000 .. 0x9800_0000`.
pub proof fn lemma_accepted_tables(msp: u32, reset: u32)
    ensures
        (msp_ok(msp) && reset_ok(reset)) <==> (0xC000_0000 <= msp <= 0xC400_0000 && msp & 7 == 0
            && reset & 1 == 1 && 0x9000_0000 <= reset & !1u32 && reset & !1u32 < 0x9800_0000),
{
    assert(msp & 7 == msp % 8) by (bit_vector);
    assert(reset & 1 == reset % 2) by (bit_vector);
    assert(reset & !1u32 == reset - reset % 2) by (bit_vector);
}

/// The fail panel shows its generic message exactly for tables the bootloader would
/// accept: every rejected table gets a specific reason.
pub proof fn lemma_generic_reason_iff_accepted(msp: u32, reset: u32)
    ensures
        reason_text(msp, reset) == "Vector table rejected"@ <==> (msp_ok(msp) && reset_ok(reset)),
{
    reveal_strlit("Vector table rejected");
    reveal_strlit("NOR empty or erased (no image)");
    reveal_strlit("Invalid MSP (need SDRAM stack)");
    reveal_strlit("Reset vector missing Thumb bit");
    reveal_strlit("Reset vector not in NOR XIP");
    assert("Vector table rejected"@ != "NOR empty or erased (no image)"@) by {
        assert("Vector table rejected"@[0] != "NOR empty or erased (no image)"@[0]);
    }
    assert("Vector table rejected"@ != "Invalid MSP (need SDRAM stack)"@) by {
        assert("Vector table rejected"@[0] != "Invalid MSP (need SDRAM stack)"@[0]);
    }
    assert("Vector table rejected"@ != "Reset vector missing Thumb bit"@) by {
        assert("Vector table rejected"@[0] != "Reset vector missing Thumb bit"@[0]);
    }
    assert("Vector table rejected"@ != "Reset vector not in NOR XIP"@) by {
        assert("Vector table rejected"@[0] != "Reset vector not in NOR XIP"@[0]);
    }
}

/// The hexadecimal dump reads back to the word: it is `0x` followed by eight digits,
/// and digit `i` (most significant first) is `0`-`9` or `A`-`F` standing for bits
/// `28 - 4i .. 31 - 4i` of `v`.
pub proof fn lemma_hex_text_reads_back(v: u32, i: int)
    requires
        0 <= i < 8,
    ensures
        hex_text(v).len() == 10,
        hex_text(v)[0] == 0x30 && hex_text(v)[1] == 0x78,
        ({
            let c = hex_text(v)[2 + i];
            let d = (v >> ((28 - 4 * i) as u32)) & 0xF;
            ||| (0x30 <= c <= 0x39 && c - 0x30 == d)
            ||| (0x41 <= c <= 0x46 && c - 0x41 + 10 == d)
        }),
{
    let sh = (28 - 4 * i) as u32;
    let d = (v >> sh) & 0xF;
    assert(d < 16) by (bit_vector)
        requires d == (v >> sh) & 0xF;
    assert(hex_text(v)[2 + i] == hex_digit(nibble(v, i)));
}

/// Lower-case letters draw exactly like their upper-case forms, and a byte outside
/// the font (above `_`, not a lower-case letter, or a control byte) draws the solid
/// block `[0x7F; 5]`.
pub proof fn lemma_glyph_case_and_fallback(c: u8)
    ensures
        0x61 <= c <= 0x7A ==> glyph_spec(c) == glyph_spec((c - 32) as u8),
        (c < 0x20 || (0x5F < c && !(0x61 <= c <= 0x7A))) ==> glyph_spec(c) == seq![0x7Fu8, 0x7Fu8, 0x7Fu8, 0x7Fu8, 0x7Fu8],
{
}

} // verus!
