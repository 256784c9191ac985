//! Carrier-board configuration and memory policy.
//!
//! Boot chain: MCU internal flash (stage-0 bootloader) enables FMC and QUADSPI, then
//! jumps to ArmOS executing in place from QUADSPI NOR at 0x9000_0000; ArmOS uses the
//! FMC SDRAM at 0xC000_0000 (framebuffers, statics, heap, stack) as main RAM and the
//! FMC NAND at 0x8000_0000 as mass storage.
use vstd::prelude::*;

use crate::hal::regs::GPIOA_BASE;

pub mod gpio;

verus! {

pub const UART_BAUD: u32 = 115_200;

/// External HSE (OSC_IN) crystal frequency.
pub const HSE_FREQ_HZ: u32 = 8_000_000;

/// System clock after PLL1 bring-up (HSE to 480 MHz on the Cortex-M7).
pub const SYSCLK_FREQ_HZ: u32 = 480_000_000;

/// FMC SDRAM bank 1: OS main RAM (64 MiB).
pub const SDRAM_BASE: usize = 0xC000_0000;

pub const SDRAM_SIZE: usize = 64 * 1024 * 1024;

/// FMC NAND: mass storage (512 MiB).
pub const NAND_BASE: usize = 0x8000_0000;

pub const NAND_SIZE: usize = 512 * 1024 * 1024;

/// QUADSPI memory-mapped NOR: OS execute-in-place and read-only data (128 MiB).
pub const NOR_BASE: usize = 0x9000_0000;

pub const NOR_SIZE: usize = 128 * 1024 * 1024;

/// Where the stage-0 bootloader lives (MCU internal flash).
pub const BOOTLOADER_FLASH_BASE: usize = 0x0800_0000;

pub const FB_WIDTH: u32 = 800;

pub const FB_HEIGHT: u32 = 480;

pub const FB_BPP: u16 = 32;

pub const FB_BYTES_PER_PIXEL: u32 = FB_BPP as u32 / 8;

pub const FB_STRIDE: u32 = FB_WIDTH * FB_BYTES_PER_PIXEL;

pub const FB_PIXELS: u32 = FB_WIDTH * FB_HEIGHT;

#[verifier::nonlinear]
pub const FB_BYTES: u32 = FB_PIXELS * FB_BYTES_PER_PIXEL;

pub const FB_DOUBLE_BYTES: u32 = FB_BYTES * 2;

/// Bytes reserved at the start of SDRAM for both framebuffers (64 KiB aligned).
/// (`FB_DOUBLE_BYTES` rounded up to a multiple of 0x10000; see `lemma_memory_map`.)
pub const FB_RESERVE_BYTES: usize = 3_080_192;

/// How the front buffer reaches the screen.
#[derive(Clone, Copy, Debug, PartialEq, Eq, Structural)]
pub enum Scanout {
    /// The front buffer lives in guest RAM only.
    Soft,
    /// The LTDC controller scans the front buffer out to the panel.
    Ltdc,
}

pub const FB_REGION_BASE: usize = SDRAM_BASE;

pub const SCANOUT: Scanout = Scanout::Ltdc;

pub const MAIN_RAM_BASE: usize = SDRAM_BASE + FB_RESERVE_BYTES;

pub const MAIN_RAM_SIZE: usize = SDRAM_SIZE - FB_RESERVE_BYTES;

/// Stack size at the top of main RAM.
pub const STACK_SIZE: usize = 64 * 1024;

pub const PANEL_HSYNC: u16 = 48;

pub const PANEL_HBP: u16 = 40;

pub const PANEL_HFP: u16 = 40;

pub const PANEL_VSYNC: u16 = 1;

pub const PANEL_VBP: u16 = 31;

pub const PANEL_VFP: u16 = 13;

pub const PANEL_PIXEL_CLOCK_HZ: u32 = 29_200_000;

/// Ports that carry alternate-function pins of the console.
#[derive(Clone, Copy, Debug, PartialEq, Eq, Structural)]
pub enum GpioPort {
    A,
}

impl GpioPort {
    /// Base address of the port's register block.
    pub fn base(self) -> (r: usize)
        ensures
            r == GPIOA_BASE,
    {
        match self {
            GpioPort::A => GPIOA_BASE,
        }
    }
}

/// A pad routed to an alternate function.
#[derive(Clone, Copy, Debug, PartialEq, Eq, Structural)]
pub struct GpioPin {
    pub port: GpioPort,
    pub pin: u8,
    pub alternate: u8,
}

/// USART1 TX pin: PA9, AF7.
pub fn usart1_tx() -> (r: GpioPin)
    ensures
        r == (GpioPin { port: GpioPort::A, pin: 9, alternate: 7 }),
{
    GpioPin { port: GpioPort::A, pin: 9, alternate: 7 }
}

/// USART1 RX pin: PA10, AF7.
pub fn usart1_rx() -> (r: GpioPin)
    ensures
        r == (GpioPin { port: GpioPort::A, pin: 10, alternate: 7 }),
{
    GpioPin { port: GpioPort::A, pin: 10, alternate: 7 }
}

/// Backlight power-enable pin: not assigned on the carrier yet.
pub fn backlight_pwren() -> (r: Option<GpioPin>)
    ensures
        r is None,
{
    None
}

/// Backlight PWM pin: not assigned on the carrier yet.
pub fn backlight_pwm() -> (r: Option<GpioPin>)
    ensures
        r is None,
{
    None
}

/// The framebuffer reserve is the two framebuffers rounded up to 64 KiB, and main RAM
/// fills the rest of the SDRAM.
pub proof fn lemma_memory_map()
    ensures
        FB_DOUBLE_BYTES == 3_072_000,
        FB_RESERVE_BYTES == (FB_DOUBLE_BYTES as usize + 0xFFFF) as usize & !0xFFFFusize,
        FB_RESERVE_BYTES % 0x10000 == 0,
        FB_DOUBLE_BYTES <= FB_RESERVE_BYTES < FB_DOUBLE_BYTES + 0x10000,
        FB_RESERVE_BYTES + MAIN_RAM_SIZE == SDRAM_SIZE,
{
    assert(FB_DOUBLE_BYTES == 3_072_000);
    assert(FB_DOUBLE_BYTES as usize + 0xFFFF == 3_137_535usize);
    assert((3_137_535usize & !0xFFFFusize) == 3_080_192usize) by (bit_vector);
}

} // verus!
