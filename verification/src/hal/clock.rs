//! Bus clocks derived from the carrier clock tree:
//! HSE 8 MHz, PLL1, SYSCLK 480 MHz, HCLK (AHB), PCLK1/2 (APB).
//!
//! The prescaler fields are read from RCC by the caller and handed in as raw codes;
//! until they are programmed they read as "divide by 1".
use vstd::prelude::*;

use crate::board::SYSCLK_FREQ_HZ;

verus! {

/// AHB divisor selected by the D1CFGR.HPRE code.
pub open spec fn hpre_div(code: u8) -> u32 {
    if code == 0x8 {
        2
    } else if code == 0x9 {
        4
    } else if code == 0xA {
        8
    } else if code == 0xB {
        16
    } else if code == 0xC {
        64
    } else if code == 0xD {
        128
    } else if code == 0xE {
        256
    } else if code == 0xF {
        512
    } else {
        1
    }
}

/// APB2 divisor selected by the D2CFGR.D2PPRE2 code.
pub open spec fn apb2_div(code: u8) -> u32 {
    if code == 0x4 {
        2
    } else if code == 0x5 {
        4
    } else if code == 0x6 {
        8
    } else if code == 0x7 {
        16
    } else {
        1
    }
}

/// AHB divisor for an HPRE code.
pub fn hpre_divisor(code: u8) -> (r: u32)
    ensures
        r == hpre_div(code),
{
    match code {
        0x8 => 2,
        0x9 => 4,
        0xA => 8,
        0xB => 16,
        0xC => 64,
        0xD => 128,
        0xE => 256,
        0xF => 512,
        _ => 1,
    }
}

/// APB2 divisor for a D2PPRE2 code.
pub fn apb2_prescaler(code: u8) -> (r: u32)
    ensures
        r == apb2_div(code),
{
    match code {
        0x4 => 2,
        0x5 => 4,
        0x6 => 8,
        0x7 => 16,
        _ => 1,
    }
}

/// The full-speed operating point (what QEMU and the silicon run at after PLL1).
pub fn sysclk_hz() -> (r: u32)
    ensures
        r == SYSCLK_FREQ_HZ,
{
    SYSCLK_FREQ_HZ
}

/// AHB clock for the HPRE code read from RCC D1CFGR.
pub fn hclk_hz(hpre: u8) -> (r: u32)
    ensures
        r == SYSCLK_FREQ_HZ / hpre_div(hpre),
{
    sysclk_hz() / hpre_divisor(hpre)
}

/// APB2 clock for the HPRE and D2PPRE2 codes read from RCC.
pub fn pclk2_hz(hpre: u8, ppre2: u8) -> (r: u32)
    ensures
        r == SYSCLK_FREQ_HZ / hpre_div(hpre) / apb2_div(ppre2),
{
    let hclk = hclk_hz(hpre);
    let prescaler = apb2_prescaler(ppre2);
    hclk / prescaler
}

/// The AHB prescaler decodes as RM0399 gives it: codes 0 to 7 do not divide; code 8
/// divides by 2 and each code up to 11 doubles the divisor; code 12 divides by 64
/// (32 is skipped) and each code up to 15 doubles it again.
pub proof fn lemma_hpre_decode(code: u8)
    ensures
        code < 8 ==> hpre_div(code) == 1,
        hpre_div(8) == 2,
        8 <= code < 11 ==> hpre_div((code + 1) as u8) == 2 * hpre_div(code),
        hpre_div(12) == 2 * 2 * hpre_div(11),
        12 <= code < 15 ==> hpre_div((code + 1) as u8) == 2 * hpre_div(code),
        code > 15 ==> hpre_div(code) == 1,
{
    assert(hpre_div(11) == 16);
    assert(hpre_div(12) == 64);
}

/// The APB2 prescaler decodes as RM0399 gives it: codes 0 to 3 do not divide; code 4
/// divides by 2 and each code up to 7 doubles the divisor.
pub proof fn lemma_apb2_decode(code: u8)
    ensures
        code < 4 ==> apb2_div(code) == 1,
        apb2_div(4) == 2,
        4 <= code < 7 ==> apb2_div((code + 1) as u8) == 2 * apb2_div(code),
        code > 7 ==> apb2_div(code) == 1,
{
}

/// The APB2 clock is SYSCLK divided by both prescalers, each a power of two from 1 to
/// 512 (AHB) or 16 (APB2), so it never exceeds SYSCLK and never drops below it divided
/// by 8192.
pub proof fn lemma_pclk2_range(hpre: u8, ppre2: u8)
    ensures
        1 <= hpre_div(hpre) <= 512,
        1 <= apb2_div(ppre2) <= 16,
        SYSCLK_FREQ_HZ / hpre_div(hpre) / apb2_div(ppre2) <= SYSCLK_FREQ_HZ,
        SYSCLK_FREQ_HZ / hpre_div(hpre) / apb2_div(ppre2) >= SYSCLK_FREQ_HZ / 8192,
{
    assert(SYSCLK_FREQ_HZ == 480_000_000);
}

} // verus!
