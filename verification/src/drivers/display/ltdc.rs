//! LTDC timing and layer set-up for the 800 x 480 parallel RGB panel.
//!
//! The LTDC timing registers use N - 1 encoding for widths and accumulated counts.
use vstd::prelude::*;

use crate::board::{
    FB_HEIGHT, FB_STRIDE, FB_WIDTH, PANEL_HBP, PANEL_HFP, PANEL_HSYNC, PANEL_VBP, PANEL_VFP,
    PANEL_VSYNC,
};
use crate::hal::regs::RegOp;

verus! {

/// Register fields for the panel timings and layer 1 window.
#[derive(Clone, Copy, Debug, PartialEq, Eq, Structural)]
pub struct LtdcTiming {
    /// Horizontal / vertical sync width minus one (SSCR).
    pub hsw: u16,
    pub vsh: u16,
    /// Accumulated back porch (BPCR).
    pub ahbp: u16,
    pub avbp: u16,
    /// Accumulated active width/height (AWCR).
    pub aaw: u16,
    pub aah: u16,
    /// Total width/height (TWCR).
    pub totalw: u16,
    pub totalh: u16,
    /// Layer window, inclusive start/stop (WHPCR, WVPCR).
    pub whstpos: u16,
    pub whsppos: u16,
    pub wvstpos: u16,
    pub wvsppos: u16,
    /// Line length in bytes plus 3, and pitch in bytes (CFBLR).
    pub line_len: u16,
    pub pitch: u16,
    /// Number of lines (CFBLNR).
    pub lines: u16,
}

/// Timing register values for the carrier panel.
pub fn timings() -> (r: LtdcTiming)
    ensures
        r.hsw == PANEL_HSYNC - 1,
        r.vsh == PANEL_VSYNC - 1,
        r.ahbp == PANEL_HSYNC + PANEL_HBP - 1,
        r.avbp == PANEL_VSYNC + PANEL_VBP - 1,
        r.aaw == PANEL_HSYNC + PANEL_HBP + FB_WIDTH - 1,
        r.aah == PANEL_VSYNC + PANEL_VBP + FB_HEIGHT - 1,
        r.totalw == PANEL_HSYNC + PANEL_HBP + FB_WIDTH + PANEL_HFP - 1,
        r.totalh == PANEL_VSYNC + PANEL_VBP + FB_HEIGHT + PANEL_VFP - 1,
        r.whstpos == PANEL_HSYNC + PANEL_HBP,
        r.whsppos == PANEL_HSYNC + PANEL_HBP + FB_WIDTH - 1,
        r.wvstpos == PANEL_VSYNC + PANEL_VBP,
        r.wvsppos == PANEL_VSYNC + PANEL_VBP + FB_HEIGHT - 1,
        r.line_len == FB_STRIDE + 3,
        r.pitch == FB_STRIDE,
        r.lines == FB_HEIGHT,
{
    let hsync = PANEL_HSYNC as u32;
    let hbp = PANEL_HBP as u32;
    let hfp = PANEL_HFP as u32;
    let vsync = PANEL_VSYNC as u32;
    let vbp = PANEL_VBP as u32;
    let vfp = PANEL_VFP as u32;
    let aw = FB_WIDTH;
    let ah = FB_HEIGHT;
    let hsw = hsync.saturating_sub(1);
    let vsh = vsync.saturating_sub(1);
    let ahbp = hsync + hbp - 1;
    let avbp = vsync + vbp - 1;
    let aaw = hsync + hbp + aw - 1;
    let aah = vsync + vbp + ah - 1;
    let totalw = hsync + hbp + aw + hfp - 1;
    let totalh = vsync + vbp + ah + vfp - 1;
    let pitch = FB_STRIDE;
    let line_len = pitch + 3;
    LtdcTiming {
        hsw: hsw as u16,
        vsh: vsh as u16,
        ahbp: ahbp as u16,
        avbp: avbp as u16,
        aaw: aaw as u16,
        aah: aah as u16,
        totalw: totalw as u16,
        totalh: totalh as u16,
        whstpos: (hsync + hbp) as u16,
        whsppos: (hsync + hbp + aw - 1) as u16,
        wvstpos: (vsync + vbp) as u16,
        wvsppos: (vsync + vbp + ah - 1) as u16,
        line_len: line_len as u16,
        pitch: pitch as u16,
        lines: FB_HEIGHT as u16,
    }
}

/// LTDC register block.
pub const LTDC_BASE: usize = 0x5000_1000;

/// RCC APB3 clock-enable register and its LTDC bit.
pub const RCC_APB3ENR: usize = 0x5802_44E4;

pub const RCC_APB3ENR_LTDCEN: u32 = 1 << 3;

/// Global registers.
pub const LTDC_SSCR: usize = 0x08;

pub const LTDC_BPCR: usize = 0x0C;

pub const LTDC_AWCR: usize = 0x10;

pub const LTDC_TWCR: usize = 0x14;

pub const LTDC_GCR: usize = 0x18;

pub const LTDC_SRCR: usize = 0x24;

pub const LTDC_BCCR: usize = 0x2C;

/// Layer 1 registers.
pub const LTDC_L1CR: usize = 0x84;

pub const LTDC_L1WHPCR: usize = 0x88;

pub const LTDC_L1WVPCR: usize = 0x8C;

pub const LTDC_L1PFCR: usize = 0x94;

pub const LTDC_L1CACR: usize = 0x98;

pub const LTDC_L1BFCR: usize = 0xA0;

pub const LTDC_L1CFBAR: usize = 0xAC;

pub const LTDC_L1CFBLR: usize = 0xB0;

pub const LTDC_L1CFBLNR: usize = 0xB4;

/// Blending factors: BF1 = constant alpha (4), BF2 = 1 - constant alpha (5).
pub const BFCR_CONSTANT: u32 = 0x0405;

/// Two register fields, `hi` in bits 16 and up, `lo` in the low bits.
pub open spec fn pack(hi: u32, lo: u32) -> u32 {
    (hi << 16u32) | lo
}

/// Every timing and layer value fits its register field (12-bit horizontal, 11-bit
/// vertical, 13-bit line length and pitch), so the packed words set exactly the
/// fields they name.
pub proof fn lemma_timings_fit_fields()
    ensures
        PANEL_HSYNC + PANEL_HBP + FB_WIDTH + PANEL_HFP - 1 < 0x1000,
        PANEL_VSYNC + PANEL_VBP + FB_HEIGHT + PANEL_VFP - 1 < 0x800,
        FB_STRIDE + 3 < 0x2000,
        FB_HEIGHT < 0x800,
        PANEL_HSYNC >= 1,
        PANEL_VSYNC >= 1,
{
}

/// Plain write of `value` to LTDC register `off`.
pub open spec fn ltdc_write(off: usize, value: u32) -> RegOp {
    RegOp::Write { addr: (LTDC_BASE + off) as usize, value }
}

/// Timings, background, layer 1 window and format, the framebuffer at `front`,
/// layer enable and an immediate reload of the shadow registers.
pub open spec fn timing_layer_ops(front: u32) -> Seq<RegOp> {
    seq![
        ltdc_write(LTDC_SSCR, pack((PANEL_HSYNC - 1) as u32, (PANEL_VSYNC - 1) as u32)),
        ltdc_write(LTDC_BPCR, pack((PANEL_HSYNC + PANEL_HBP - 1) as u32, (PANEL_VSYNC + PANEL_VBP - 1) as u32)),
        ltdc_write(
            LTDC_AWCR,
            pack((PANEL_HSYNC + PANEL_HBP + FB_WIDTH - 1) as u32, (PANEL_VSYNC + PANEL_VBP + FB_HEIGHT - 1) as u32),
        ),
        ltdc_write(
            LTDC_TWCR,
            pack(
                (PANEL_HSYNC + PANEL_HBP + FB_WIDTH + PANEL_HFP - 1) as u32,
                (PANEL_VSYNC + PANEL_VBP + FB_HEIGHT + PANEL_VFP - 1) as u32,
            ),
        ),
        ltdc_write(LTDC_BCCR, 0),
        ltdc_write(
            LTDC_L1WHPCR,
            pack((PANEL_HSYNC + PANEL_HBP + FB_WIDTH - 1) as u32, (PANEL_HSYNC + PANEL_HBP) as u32),
        ),
        ltdc_write(
            LTDC_L1WVPCR,
            pack((PANEL_VSYNC + PANEL_VBP + FB_HEIGHT - 1) as u32, (PANEL_VSYNC + PANEL_VBP) as u32),
        ),
        ltdc_write(LTDC_L1PFCR, 0),
        ltdc_write(LTDC_L1CACR, 0xFF),
        ltdc_write(LTDC_L1BFCR, BFCR_CONSTANT),
        ltdc_write(LTDC_L1CFBAR, front),
        ltdc_write(LTDC_L1CFBLR, pack(FB_STRIDE, (FB_STRIDE + 3) as u32)),
        ltdc_write(LTDC_L1CFBLNR, FB_HEIGHT),
        RegOp::Modify { addr: (LTDC_BASE + LTDC_L1CR) as usize, mask: 1, value: 1 },
        ltdc_write(LTDC_SRCR, 1),
    ]
}

fn push_write(v: &mut Vec<RegOp>, off: usize, value: u32)
    requires
        off <= 0xB4,
    ensures
        final(v)@ == old(v)@.push(ltdc_write(off, value)),
{
    v.push(RegOp::Write { addr: LTDC_BASE + off, value });
}

fn pack_fields(hi: u16, lo: u16) -> (r: u32)
    ensures
        r == pack(hi as u32, lo as u32),
{
    ((hi as u32) << 16u32) | (lo as u32)
}

/// Register accesses that program the panel timings and layer 1 over the framebuffer
/// at `front` (ARGB8888, full active area, constant alpha), in order.
pub fn configure_timings_and_layer(front: u32) -> (r: Vec<RegOp>)
    ensures
        r@ == timing_layer_ops(front),
{
    let t = timings();
    let mut v: Vec<RegOp> = Vec::new();
    push_write(&mut v, LTDC_SSCR, pack_fields(t.hsw, t.vsh));
    push_write(&mut v, LTDC_BPCR, pack_fields(t.ahbp, t.avbp));
    push_write(&mut v, LTDC_AWCR, pack_fields(t.aaw, t.aah));
    push_write(&mut v, LTDC_TWCR, pack_fields(t.totalw, t.totalh));
    push_write(&mut v, LTDC_BCCR, 0);
    push_write(&mut v, LTDC_L1WHPCR, pack_fields(t.whsppos, t.whstpos));
    push_write(&mut v, LTDC_L1WVPCR, pack_fields(t.wvsppos, t.wvstpos));
    push_write(&mut v, LTDC_L1PFCR, 0);
    push_write(&mut v, LTDC_L1CACR, 0xFF);
    push_write(&mut v, LTDC_L1BFCR, BFCR_CONSTANT);
    push_write(&mut v, LTDC_L1CFBAR, front);
    push_write(&mut v, LTDC_L1CFBLR, pack_fields(t.pitch, t.line_len));
    push_write(&mut v, LTDC_L1CFBLNR, t.lines as u32);
    v.push(RegOp::Modify { addr: LTDC_BASE + LTDC_L1CR, mask: 1, value: 1 });
    push_write(&mut v, LTDC_SRCR, 1);
    proof {
        assert(v@ =~= timing_layer_ops(front));
    }
    v
}

/// Full bring-up: LTDC clock on APB3 (read back for bus synchronisation), timings
/// and layer 1 over `front`, controller enable.
pub open spec fn init_ops(front: u32) -> Seq<RegOp> {
    seq![
        RegOp::Modify { addr: RCC_APB3ENR, mask: RCC_APB3ENR_LTDCEN, value: RCC_APB3ENR_LTDCEN },
        RegOp::Read { addr: RCC_APB3ENR },
    ] + timing_layer_ops(front)
        + seq![RegOp::Modify { addr: (LTDC_BASE + LTDC_GCR) as usize, mask: 1, value: 1 }]
}

/// Register accesses that bring the LTDC up scanning out `front`.
pub fn init(front: u32) -> (r: Vec<RegOp>)
    ensures
        r@ == init_ops(front),
{
    let mut v: Vec<RegOp> = Vec::new();
    v.push(RegOp::Modify { addr: RCC_APB3ENR, mask: RCC_APB3ENR_LTDCEN, value: RCC_APB3ENR_LTDCEN });
    v.push(RegOp::Read { addr: RCC_APB3ENR });
    let mut layer = configure_timings_and_layer(front);
    v.append(&mut layer);
    v.push(RegOp::Modify { addr: LTDC_BASE + LTDC_GCR, mask: 1, value: 1 });
    proof {
        assert(v@ =~= init_ops(front));
    }
    v
}

/// Register accesses that point layer 1 at `front` and reload at once.
pub fn set_front(front: u32) -> (r: Vec<RegOp>)
    ensures
        r@ == seq![ltdc_write(LTDC_L1CFBAR, front), ltdc_write(LTDC_SRCR, 1)],
{
    let mut v: Vec<RegOp> = Vec::new();
    push_write(&mut v, LTDC_L1CFBAR, front);
    push_write(&mut v, LTDC_SRCR, 1);
    v
}

} // verus!
