//! Register sequences of the stage-0 bootloader: GPIO muxing for FMC SDRAM and
//! QUADSPI NOR, SDRAM command sequence, QUADSPI memory-mapped mode, status LEDs, the
//! LTDC set-up of the fail panel and the hand-off to the OS.
//!
//! The same sequence runs on silicon and on the `stm32h745-carrier` QEMU machine.
use vstd::prelude::*;

use crate::boot::{msp_ok, os_vectors_look_valid, reset_ok, OS_VECTOR_TABLE};
use crate::hal::gpio::bsrr_effect;
use crate::hal::regs::{
    RegOp, after_op, after_ops, lemma_after_ops_append, lemma_after_two, lemma_field2_write, lemma_nibble_write,
};

verus! {

pub const RCC_AHB3ENR: usize = 0x5802_44D4;

pub const RCC_AHB4ENR: usize = 0x5802_44E0;

pub const RCC_APB3ENR: usize = 0x5802_44E4;

pub const RCC_AHB3ENR_FMCEN: u32 = 1 << 12;

pub const RCC_AHB3ENR_QSPIEN: u32 = 1 << 14;

pub const RCC_APB3ENR_LTDCEN: u32 = 1 << 3;

/// GPIO clock-enable bits of ports C to I.
pub const RCC_AHB4ENR_GPIOC_TO_I: u32 = (1 << 2) | (1 << 3) | (1 << 4) | (1 << 5) | (1 << 6) | (1 << 7)
    | (1 << 8);

pub const GPIOC: usize = 0x5802_0800;

pub const GPIOD: usize = 0x5802_0C00;

pub const GPIOE: usize = 0x5802_1000;

pub const GPIOF: usize = 0x5802_1400;

pub const GPIOG: usize = 0x5802_1800;

pub const GPIOH: usize = 0x5802_1C00;

pub const GPIOI: usize = 0x5802_2000;

pub const GPIO_MODER: usize = 0x00;

pub const GPIO_OSPEEDR: usize = 0x08;

pub const GPIO_ODR: usize = 0x14;

pub const GPIO_BSRR: usize = 0x18;

pub const GPIO_AFRL: usize = 0x20;

pub const GPIO_AFRH: usize = 0x24;

pub const MODE_OUTPUT: u32 = 0b01;

pub const MODE_AF: u32 = 0b10;

pub const SPEED_VERY_HIGH: u32 = 0b11;

pub const AF_FMC: u32 = 12;

pub const AF_QSPI_9: u32 = 9;

pub const AF_QSPI_10: u32 = 10;

pub const FMC_SDCR1: usize = 0x5200_4140;

pub const FMC_SDTR1: usize = 0x5200_4148;

pub const FMC_SDCMR: usize = 0x5200_4150;

pub const FMC_SDRTR: usize = 0x5200_4154;

/// SDRAM status register; bit 0 is set while the controller is busy.
pub const FMC_SDSR: usize = 0x5200_4158;

pub const FMC_SDCMR_CTB1: u32 = 1 << 4;

pub const QUADSPI_CR: usize = 0x5200_5000;

pub const QUADSPI_DCR: usize = 0x5200_5004;

pub const QUADSPI_CCR: usize = 0x5200_5014;

pub const QUADSPI_CR_EN: u32 = 1 << 0;

pub const QUADSPI_CCR_FMODE_MEMMAP: u32 = 3 << 26;

/// Status LEDs on port E: RUN, DBG, ERR, PNC.
pub const LED_RUN: u32 = 2;

pub const LED_DBG: u32 = 3;

pub const LED_ERR: u32 = 4;

pub const LED_PNC: u32 = 5;

pub const LTDC_BASE: usize = 0x5000_1000;

/// The fail panel's framebuffer (start of SDRAM), 800 x 480 XRGB8888.
pub const FB_BASE: u32 = 0xC000_0000;

pub const FB_W: u32 = 800;

pub const FB_H: u32 = 480;

pub const FB_STRIDE: u32 = FB_W * 4;

pub const SCB_VTOR: usize = 0xE000_ED08;

/// One step of a bring-up sequence.
#[derive(Clone, Copy, Debug, PartialEq, Eq, Structural)]
pub enum BootStep {
    /// Perform the register access.
    Op(RegOp),
    /// Poll the SDRAM status register until the busy bit clears.
    WaitSdramReady,
}

/// The register accesses that set a pad's mode, give it the highest speed and, in
/// alternate-function mode, select function `af`.
pub open spec fn set_pin_ops(port: usize, pin: u32, mode: u32, af: u32) -> Seq<RegOp> {
    seq![
        RegOp::Modify { addr: (port + GPIO_MODER) as usize, mask: 3u32 << pin * 2, value: mode << pin * 2 },
        RegOp::Modify {
            addr: (port + GPIO_OSPEEDR) as usize,
            mask: 3u32 << pin * 2,
            value: SPEED_VERY_HIGH << pin * 2,
        },
    ] + if mode == MODE_AF {
        if pin < 8 {
            seq![RegOp::Modify { addr: (port + GPIO_AFRL) as usize, mask: 0xFu32 << pin * 4, value: af << pin * 4 }]
        } else {
            seq![
                RegOp::Modify {
                    addr: (port + GPIO_AFRH) as usize,
                    mask: 0xFu32 << ((pin - 8) * 4) as u32,
                    value: af << ((pin - 8) * 4) as u32,
                },
            ]
        }
    } else {
        Seq::empty()
    }
}

/// Sets a pad's mode and speed and, in alternate-function mode, its function.
pub fn gpio_set_pin(port: usize, pin: u32, mode: u32, af: u32) -> (r: Vec<RegOp>)
    requires
        pin < 16,
        port + GPIO_AFRH <= usize::MAX,
    ensures
        r@ == set_pin_ops(port, pin, mode, af),
{
    let mut v: Vec<RegOp> = Vec::new();
    v.push(RegOp::Modify { addr: port + GPIO_MODER, mask: 3u32 << pin * 2, value: mode << pin * 2 });
    v.push(RegOp::Modify { addr: port + GPIO_OSPEEDR, mask: 3u32 << pin * 2, value: SPEED_VERY_HIGH << pin * 2 });
    if mode == MODE_AF {
        if pin < 8 {
            v.push(RegOp::Modify { addr: port + GPIO_AFRL, mask: 0xFu32 << pin * 4, value: af << pin * 4 });
        } else {
            let shift = (pin - 8) * 4;
            v.push(RegOp::Modify { addr: port + GPIO_AFRH, mask: 0xFu32 << shift, value: af << shift });
        }
    }
    proof {
        assert(v@ =~= set_pin_ops(port, pin, mode, af));
    }
    v
}

/// Setting up pad `pin` of the GPIO port at `port` (the operations of `gpio_set_pin`)
/// leaves, whatever the registers held: the pad's mode field at `mode` and its speed
/// field at 11 with every other pad's mode field unchanged; in alternate-function mode
/// the pad's function nibble (in AFRL for pads 0 to 7, in AFRH for pads 8 to 15) at
/// `af` with every other pad's nibble unchanged; in any other mode both function
/// registers untouched.
pub proof fn lemma_set_pin_fields(port: usize, pin: u32, mode: u32, af: u32, q: u32, mem: Map<usize, u32>)
    requires
        pin < 16,
        q < 16,
        mode <= 3,
        af <= 15,
        port + 0x24 <= usize::MAX,
    ensures
        ({
            let m = after_ops(mem, set_pin_ops(port, pin, mode, af));
            let afr_p = (port + 0x20 + 4 * (pin / 8)) as usize;
            let afr_q = (port + 0x20 + 4 * (q / 8)) as usize;
            &&& (m[port] >> (2 * pin) as u32) & 3 == mode
            &&& (m[(port + 8) as usize] >> (2 * pin) as u32) & 3 == 3
            &&& q != pin ==> (m[port] >> (2 * q) as u32) & 3 == (mem[port] >> (2 * q) as u32) & 3
            &&& mode == 2 ==> (m[afr_p] >> (4 * (pin % 8)) as u32) & 0xF == af
            &&& mode == 2 && q != pin ==> (m[afr_q] >> (4 * (q % 8)) as u32) & 0xF == (mem[afr_q] >> (4 * (q
                % 8)) as u32) & 0xF
            &&& mode != 2 ==> m[(port + 0x20) as usize] == mem[(port + 0x20) as usize] && m[(port
                + 0x24) as usize] == mem[(port + 0x24) as usize]
        }),
{
    let s = (2 * pin) as u32;
    let t = (2 * q) as u32;
    let a = RegOp::Modify { addr: (port + GPIO_MODER) as usize, mask: 3u32 << pin * 2, value: mode << pin * 2 };
    let b = RegOp::Modify {
        addr: (port + GPIO_OSPEEDR) as usize,
        mask: 3u32 << pin * 2,
        value: SPEED_VERY_HIGH << pin * 2,
    };
    let tail = if mode == MODE_AF {
        if pin < 8 {
            seq![RegOp::Modify { addr: (port + GPIO_AFRL) as usize, mask: 0xFu32 << pin * 4, value: af << pin * 4 }]
        } else {
            seq![
                RegOp::Modify {
                    addr: (port + GPIO_AFRH) as usize,
                    mask: 0xFu32 << ((pin - 8) * 4) as u32,
                    value: af << ((pin - 8) * 4) as u32,
                },
            ]
        }
    } else {
        Seq::empty()
    };
    assert(set_pin_ops(port, pin, mode, af) == seq![a, b] + tail);
    lemma_after_ops_append(mem, seq![a, b], tail);
    lemma_after_two(mem, a, b);
    let m2 = after_op(after_op(mem, a), b);
    assert(pin * 2 == s);
    lemma_field2_write(mem[port], s, t, mode);
    lemma_field2_write(mem[(port + 8) as usize], s, s, 3);
    let m = after_ops(mem, set_pin_ops(port, pin, mode, af));
    if mode == MODE_AF {
        let sh = (4 * (pin % 8)) as u32;
        let th = (4 * (q % 8)) as u32;
        let op = tail[0];
        assert(tail.len() == 1);
        assert(tail.drop_last() =~= Seq::<RegOp>::empty());
        assert(after_ops(m2, Seq::<RegOp>::empty()) == m2);
        assert(tail.last() == op);
        assert(after_ops(m2, tail) == after_op(m2, op));
        if pin < 8 {
            assert(pin * 4 == sh);
        } else {
            assert(((pin - 8) * 4) as u32 == sh);
        }
        let addr = (port + 0x20 + 4 * (pin / 8)) as usize;
        assert(m2[addr] == mem[addr]);
        lemma_nibble_write(mem[addr], sh, th, af);
        let afr_q = (port + 0x20 + 4 * (q / 8)) as usize;
        if q != pin && q / 8 == pin / 8 {
            assert(sh != th);
        }
        assert(m2[afr_q] == mem[afr_q]);
    } else {
        assert(after_ops(m2, tail) == m2);
    }
}

/// Makes a pad an output and drives it to `high`.
pub open spec fn output_level_ops(port: usize, pin: u32, high: bool) -> Seq<RegOp> {
    set_pin_ops(port, pin, MODE_OUTPUT, 0) + seq![
        RegOp::Write {
            addr: (port + GPIO_BSRR) as usize,
            value: if high { 1u32 << pin } else { 1u32 << (pin + 16) as u32 },
        },
        RegOp::Read { addr: (port + GPIO_ODR) as usize },
    ]
}

/// Driving pad `pin` (the operations of `gpio_set_output_level`) makes it an output
/// (mode field 01) whatever the registers held, and writes to the port's set/reset
/// register a word that, applied to any output data register, gives pad `pin` the
/// level `high` and keeps every other pad's level.
pub proof fn lemma_output_level(port: usize, pin: u32, high: bool, q: u32, mem: Map<usize, u32>, odr: u32)
    requires
        pin < 16,
        q < 16,
        port + 0x24 <= usize::MAX,
    ensures
        ({
            let ops = output_level_ops(port, pin, high);
            &&& ops.len() == 4
            &&& (after_ops(mem, ops)[port] >> (2 * pin) as u32) & 3 == 1
            &&& (ops[2] matches RegOp::Write { addr, value } && addr == port + 0x18
                && (((bsrr_effect(odr, value) >> pin) & 1 == 1) == high)
                && (q != pin ==> (bsrr_effect(odr, value) >> q) & 1 == (odr >> q) & 1))
        }),
{
    let ops = output_level_ops(port, pin, high);
    let head = set_pin_ops(port, pin, MODE_OUTPUT, 0);
    let w = if high { 1u32 << pin } else { 1u32 << (pin + 16) as u32 };
    let tail = seq![RegOp::Write { addr: (port + GPIO_BSRR) as usize, value: w }, RegOp::Read { addr: (port + GPIO_ODR) as usize }];
    assert(ops == head + tail);
    assert(head.len() == 2);
    lemma_set_pin_fields(port, pin, MODE_OUTPUT, 0, pin, mem);
    lemma_after_ops_append(mem, head, tail);
    let m1 = after_ops(mem, head);
    lemma_after_two(m1, tail[0], tail[1]);
    assert(tail =~= seq![tail[0], tail[1]]);
    if high {
        assert(((bsrr_effect(odr, w) >> pin) & 1 == 1) && (q != pin ==> (bsrr_effect(odr, w) >> q) & 1 == (odr >> q) & 1)) by (bit_vector)
            requires pin < 16, q < 16, w == 1u32 << pin;
    } else {
        assert(((bsrr_effect(odr, w) >> pin) & 1 != 1) && (q != pin ==> (bsrr_effect(odr, w) >> q) & 1 == (odr >> q) & 1)) by (bit_vector)
            requires pin < 16, q < 16, w == 1u32 << ((pin + 16) as u32);
    }
}

/// Makes a pad an output and drives it to `high`.
pub fn gpio_set_output_level(port: usize, pin: u32, high: bool) -> (r: Vec<RegOp>)
    requires
        pin < 16,
        port + GPIO_AFRH <= usize::MAX,
    ensures
        r@ == output_level_ops(port, pin, high),
{
    let mut v = gpio_set_pin(port, pin, MODE_OUTPUT, 0);
    if high {
        v.push(RegOp::Write { addr: port + GPIO_BSRR, value: 1u32 << pin });
    } else {
        v.push(RegOp::Write { addr: port + GPIO_BSRR, value: 1u32 << (pin + 16) });
    }
    v.push(RegOp::Read { addr: port + GPIO_ODR });
    v
}

/// Switches status LED `pin` (on port E) on or off.
pub fn led_set(pin: u32, on: bool) -> (r: Vec<RegOp>)
    requires
        pin < 16,
    ensures
        r@ == output_level_ops(GPIOE, pin, on),
{
    gpio_set_output_level(GPIOE, pin, on)
}

/// Claims the four status LEDs and switches them off.
pub fn status_leds_init() -> (r: Vec<RegOp>)
    ensures
        r@ == output_level_ops(GPIOE, LED_RUN, false) + output_level_ops(GPIOE, LED_DBG, false)
            + output_level_ops(GPIOE, LED_ERR, false) + output_level_ops(GPIOE, LED_PNC, false),
{
    let mut v = led_set(LED_RUN, false);
    let mut b = led_set(LED_DBG, false);
    v.append(&mut b);
    let mut c = led_set(LED_ERR, false);
    v.append(&mut c);
    let mut d = led_set(LED_PNC, false);
    v.append(&mut d);
    v
}

/// A pad routed to an alternate function by the bootloader.
#[derive(Clone, Copy, Debug, PartialEq, Eq, Structural)]
pub struct PinMux {
    pub port: usize,
    pub pin: u32,
    pub af: u32,
}

/// The carrier's pin muxing: QUADSPI for the IS25LP01GJ NOR (with NCS on PG6) and FMC
/// for the AS4C32M16SB SDRAM, in the order the bootloader applies it.
pub open spec fn pinmux_table() -> Seq<PinMux> {
    seq![
        PinMux { port: GPIOF, pin: 6, af: AF_QSPI_9 },
        PinMux { port: GPIOF, pin: 7, af: AF_QSPI_9 },
        PinMux { port: GPIOF, pin: 8, af: AF_QSPI_10 },
        PinMux { port: GPIOF, pin: 9, af: AF_QSPI_10 },
        PinMux { port: GPIOF, pin: 10, af: AF_QSPI_9 },
        PinMux { port: GPIOG, pin: 6, af: AF_QSPI_10 },
        PinMux { port: GPIOF, pin: 0, af: AF_FMC },
        PinMux { port: GPIOF, pin: 1, af: AF_FMC },
        PinMux { port: GPIOF, pin: 2, af: AF_FMC },
        PinMux { port: GPIOF, pin: 3, af: AF_FMC },
        PinMux { port: GPIOF, pin: 4, af: AF_FMC },
        PinMux { port: GPIOF, pin: 5, af: AF_FMC },
        PinMux { port: GPIOF, pin: 11, af: AF_FMC },
        PinMux { port: GPIOF, pin: 12, af: AF_FMC },
        PinMux { port: GPIOF, pin: 13, af: AF_FMC },
        PinMux { port: GPIOF, pin: 14, af: AF_FMC },
        PinMux { port: GPIOF, pin: 15, af: AF_FMC },
        PinMux { port: GPIOG, pin: 0, af: AF_FMC },
        PinMux { port: GPIOG, pin: 1, af: AF_FMC },
        PinMux { port: GPIOG, pin: 2, af: AF_FMC },
        PinMux { port: GPIOG, pin: 4, af: AF_FMC },
        PinMux { port: GPIOG, pin: 5, af: AF_FMC },
        PinMux { port: GPIOG, pin: 8, af: AF_FMC },
        PinMux { port: GPIOG, pin: 15, af: AF_FMC },
        PinMux { port: GPIOC, pin: 0, af: AF_FMC },
        PinMux { port: GPIOC, pin: 2, af: AF_FMC },
        PinMux { port: GPIOH, pin: 7, af: AF_FMC },
        PinMux { port: GPIOE, pin: 0, af: AF_FMC },
        PinMux { port: GPIOE, pin: 1, af: AF_FMC },
        PinMux { port: GPIOD, pin: 14, af: AF_FMC },
        PinMux { port: GPIOD, pin: 15, af: AF_FMC },
        PinMux { port: GPIOD, pin: 0, af: AF_FMC },
        PinMux { port: GPIOD, pin: 1, af: AF_FMC },
        PinMux { port: GPIOE, pin: 7, af: AF_FMC },
        PinMux { port: GPIOE, pin: 8, af: AF_FMC },
        PinMux { port: GPIOE, pin: 9, af: AF_FMC },
        PinMux { port: GPIOE, pin: 10, af: AF_FMC },
        PinMux { port: GPIOE, pin: 11, af: AF_FMC },
        PinMux { port: GPIOE, pin: 12, af: AF_FMC },
        PinMux { port: GPIOE, pin: 13, af: AF_FMC },
        PinMux { port: GPIOE, pin: 14, af: AF_FMC },
        PinMux { port: GPIOE, pin: 15, af: AF_FMC },
        PinMux { port: GPIOD, pin: 8, af: AF_FMC },
        PinMux { port: GPIOD, pin: 9, af: AF_FMC },
        PinMux { port: GPIOD, pin: 10, af: AF_FMC },
    ]
}

/// The register accesses that apply a muxing table, entry by entry.
pub open spec fn pinmux_ops(t: Seq<PinMux>) -> Seq<RegOp>
    decreases t.len(),
{
    if t.len() == 0 {
        Seq::empty()
    } else {
        pinmux_ops(t.drop_last()) + set_pin_ops(t.last().port, t.last().pin, MODE_AF, t.last().af)
    }
}

fn push_mux(v: &mut Vec<PinMux>, port: usize, pin: u32, af: u32)
    ensures
        final(v)@ == old(v)@.push(PinMux { port, pin, af }),
{
    v.push(PinMux { port, pin, af });
}

/// The carrier's pin-muxing table.
pub fn board_pinmux_table() -> (r: Vec<PinMux>)
    ensures
        r@ == pinmux_table(),
{
    let mut v: Vec<PinMux> = Vec::new();
    push_mux(&mut v, GPIOF, 6, AF_QSPI_9);
    push_mux(&mut v, GPIOF, 7, AF_QSPI_9);
    push_mux(&mut v, GPIOF, 8, AF_QSPI_10);
    push_mux(&mut v, GPIOF, 9, AF_QSPI_10);
    push_mux(&mut v, GPIOF, 10, AF_QSPI_9);
    push_mux(&mut v, GPIOG, 6, AF_QSPI_10);
    let mut pin: u32 = 0;
    while pin <= 5
        invariant
            0 <= pin <= 6,
            v@ == pinmux_table().subrange(0, 6 + pin as int),
        decreases 6 - pin,
    {
        push_mux(&mut v, GPIOF, pin, AF_FMC);
        pin = pin + 1;
        proof {
            assert(v@ =~= pinmux_table().subrange(0, 6 + pin as int));
        }
    }
    push_mux(&mut v, GPIOF, 11, AF_FMC);
    let mut pin: u32 = 12;
    while pin <= 15
        invariant
            12 <= pin <= 16,
            v@ == pinmux_table().subrange(0, pin as int + 1),
        decreases 16 - pin,
    {
        push_mux(&mut v, GPIOF, pin, AF_FMC);
        pin = pin + 1;
        proof {
            assert(v@ =~= pinmux_table().subrange(0, pin as int + 1));
        }
    }
    push_mux(&mut v, GPIOG, 0, AF_FMC);
    push_mux(&mut v, GPIOG, 1, AF_FMC);
    push_mux(&mut v, GPIOG, 2, AF_FMC);
    push_mux(&mut v, GPIOG, 4, AF_FMC);
    push_mux(&mut v, GPIOG, 5, AF_FMC);
    push_mux(&mut v, GPIOG, 8, AF_FMC);
    push_mux(&mut v, GPIOG, 15, AF_FMC);
    push_mux(&mut v, GPIOC, 0, AF_FMC);
    push_mux(&mut v, GPIOC, 2, AF_FMC);
    push_mux(&mut v, GPIOH, 7, AF_FMC);
    push_mux(&mut v, GPIOE, 0, AF_FMC);
    push_mux(&mut v, GPIOE, 1, AF_FMC);
    push_mux(&mut v, GPIOD, 14, AF_FMC);
    push_mux(&mut v, GPIOD, 15, AF_FMC);
    push_mux(&mut v, GPIOD, 0, AF_FMC);
    push_mux(&mut v, GPIOD, 1, AF_FMC);
    let mut pin: u32 = 7;
    while pin <= 15
        invariant
            7 <= pin <= 16,
            v@ == pinmux_table().subrange(0, pin as int + 26),
        decreases 16 - pin,
    {
        push_mux(&mut v, GPIOE, pin, AF_FMC);
        pin = pin + 1;
        proof {
            assert(v@ =~= pinmux_table().subrange(0, pin as int + 26));
        }
    }
    push_mux(&mut v, GPIOD, 8, AF_FMC);
    push_mux(&mut v, GPIOD, 9, AF_FMC);
    push_mux(&mut v, GPIOD, 10, AF_FMC);
    proof {
        assert(v@ =~= pinmux_table());
    }
    v
}

fn append_mux(v: &mut Vec<RegOp>, table: &Vec<PinMux>, from: usize, to: usize)
    requires
        from <= to <= table@.len(),
        table@ == pinmux_table(),
    ensures
        final(v)@ == old(v)@ + pinmux_ops(table@.subrange(from as int, to as int)),
{
    let ghost start = v@;
    let mut i: usize = from;
    while i < to
        invariant
            from <= i <= to <= table@.len(),
            table@ == pinmux_table(),
            v@ == start + pinmux_ops(table@.subrange(from as int, i as int)),
        decreases to - i,
    {
        let m = table[i];
        proof {
            assert(m.pin < 16 && m.af <= 15 && m.port <= GPIOI);
        }
        let mut ops = gpio_set_pin(m.port, m.pin, MODE_AF, m.af);
        v.append(&mut ops);
        proof {
            let t = table@.subrange(from as int, i as int + 1);
            assert(t.drop_last() =~= table@.subrange(from as int, i as int));
            assert(t.last() == m);
            assert(v@ =~= start + pinmux_ops(t));
        }
        i = i + 1;
    }
}

/// The carrier's muxing: the QUADSPI pads, NOR RESET# released (PI11 high), then
/// the FMC SDRAM pads.
pub open spec fn board_pinmux_ops() -> Seq<RegOp> {
    pinmux_ops(pinmux_table().subrange(0, 6)) + output_level_ops(GPIOI, 11, true) + pinmux_ops(
        pinmux_table().subrange(6, pinmux_table().len() as int),
    )
}

/// Applies the carrier's pin muxing.
pub fn board_pinmux_init() -> (r: Vec<RegOp>)
    ensures
        r@ == board_pinmux_ops(),
{
    let table = board_pinmux_table();
    let mut v: Vec<RegOp> = Vec::new();
    append_mux(&mut v, &table, 0, 6);
    let mut nor = gpio_set_output_level(GPIOI, 11, true);
    v.append(&mut nor);
    let n = table.len();
    append_mux(&mut v, &table, 6, n);
    proof {
        assert(v@ =~= board_pinmux_ops());
    }
    v
}

/// FMC SDRAM bank 1 bring-up (RM0399 order): configuration and timing, then the
/// CLOCK, PALL, AUTOREF and LOAD MODE commands, then the refresh rate, waiting for
/// the controller after each step.
pub open spec fn fmc_sdram_steps() -> Seq<BootStep> {
    seq![
        BootStep::Op(RegOp::Write { addr: FMC_SDCR1, value: 0x0000_1959 }),
        BootStep::Op(RegOp::Write { addr: FMC_SDTR1, value: 0x0111_5361 }),
        BootStep::WaitSdramReady,
        BootStep::Op(RegOp::Write { addr: FMC_SDCMR, value: FMC_SDCMR_CTB1 | 1 }),
        BootStep::WaitSdramReady,
        BootStep::Op(RegOp::Write { addr: FMC_SDCMR, value: FMC_SDCMR_CTB1 | 2 }),
        BootStep::WaitSdramReady,
        BootStep::Op(RegOp::Write { addr: FMC_SDCMR, value: FMC_SDCMR_CTB1 | (1u32 << 5) | 3 }),
        BootStep::WaitSdramReady,
        BootStep::Op(RegOp::Write { addr: FMC_SDCMR, value: FMC_SDCMR_CTB1 | (0x220u32 << 9) | 4 }),
        BootStep::WaitSdramReady,
        BootStep::Op(RegOp::Write { addr: FMC_SDRTR, value: 0x27Cu32 << 1 }),
        BootStep::WaitSdramReady,
    ]
}

fn push_write(v: &mut Vec<BootStep>, addr: usize, value: u32)
    ensures
        final(v)@ == old(v)@.push(BootStep::Op(RegOp::Write { addr, value })),
{
    v.push(BootStep::Op(RegOp::Write { addr, value }));
}

/// The SDRAM bring-up sequence.
pub fn fmc_sdram_init() -> (r: Vec<BootStep>)
    ensures
        r@ == fmc_sdram_steps(),
{
    let mut v: Vec<BootStep> = Vec::new();
    push_write(&mut v, FMC_SDCR1, 0x0000_1959);
    push_write(&mut v, FMC_SDTR1, 0x0111_5361);
    v.push(BootStep::WaitSdramReady);
    push_write(&mut v, FMC_SDCMR, FMC_SDCMR_CTB1 | 1);
    v.push(BootStep::WaitSdramReady);
    push_write(&mut v, FMC_SDCMR, FMC_SDCMR_CTB1 | 2);
    v.push(BootStep::WaitSdramReady);
    push_write(&mut v, FMC_SDCMR, FMC_SDCMR_CTB1 | (1u32 << 5) | 3);
    v.push(BootStep::WaitSdramReady);
    push_write(&mut v, FMC_SDCMR, FMC_SDCMR_CTB1 | (0x220u32 << 9) | 4);
    v.push(BootStep::WaitSdramReady);
    push_write(&mut v, FMC_SDRTR, 0x27Cu32 << 1);
    v.push(BootStep::WaitSdramReady);
    proof {
        assert(v@ =~= fmc_sdram_steps());
    }
    v
}

/// QUADSPI memory-mapped (execute-in-place) mode for the 128 MiB NOR (FSIZE = 26).
pub fn quadspi_enable_memmap() -> (r: Vec<RegOp>)
    ensures
        r@ == seq![
            RegOp::Write { addr: QUADSPI_DCR, value: 26u32 << 16 },
            RegOp::Write { addr: QUADSPI_CCR, value: QUADSPI_CCR_FMODE_MEMMAP },
            RegOp::Write { addr: QUADSPI_CR, value: QUADSPI_CR_EN },
        ],
{
    let mut v: Vec<RegOp> = Vec::new();
    v.push(RegOp::Write { addr: QUADSPI_DCR, value: 26u32 << 16 });
    v.push(RegOp::Write { addr: QUADSPI_CCR, value: QUADSPI_CCR_FMODE_MEMMAP });
    v.push(RegOp::Write { addr: QUADSPI_CR, value: QUADSPI_CR_EN });
    v
}

/// Wraps register accesses as bring-up steps.
pub open spec fn as_steps(s: Seq<RegOp>) -> Seq<BootStep> {
    Seq::new(s.len(), |i: int| BootStep::Op(s[i]))
}

fn append_ops(v: &mut Vec<BootStep>, ops: Vec<RegOp>)
    ensures
        final(v)@ == old(v)@ + as_steps(ops@),
{
    let ghost start = v@;
    let mut i: usize = 0;
    while i < ops.len()
        invariant
            0 <= i <= ops@.len(),
            v@ == start + as_steps(ops@.subrange(0, i as int)),
        decreases ops@.len() - i,
    {
        v.push(BootStep::Op(ops[i]));
        i = i + 1;
        proof {
            assert(v@ =~= start + as_steps(ops@.subrange(0, i as int)));
        }
    }
    proof {
        assert(ops@.subrange(0, ops@.len() as int) =~= ops@);
    }
}

/// The whole bring-up before the hand-off: GPIO clocks for ports C to I, status LEDs
/// off then DBG on, pin muxing, FMC and QUADSPI clocks, SDRAM, and the NOR window.
pub open spec fn boot_steps() -> Seq<BootStep> {
    as_steps(
        seq![
            RegOp::Modify { addr: RCC_AHB4ENR, mask: RCC_AHB4ENR_GPIOC_TO_I, value: RCC_AHB4ENR_GPIOC_TO_I },
            RegOp::Read { addr: RCC_AHB4ENR },
        ],
    ) + as_steps(
        output_level_ops(GPIOE, LED_RUN, false) + output_level_ops(GPIOE, LED_DBG, false)
            + output_level_ops(GPIOE, LED_ERR, false) + output_level_ops(GPIOE, LED_PNC, false),
    ) + as_steps(output_level_ops(GPIOE, LED_DBG, true)) + as_steps(
        board_pinmux_ops(),
    ) + as_steps(
        seq![
            RegOp::Modify {
                addr: RCC_AHB3ENR,
                mask: RCC_AHB3ENR_FMCEN | RCC_AHB3ENR_QSPIEN,
                value: RCC_AHB3ENR_FMCEN | RCC_AHB3ENR_QSPIEN,
            },
            RegOp::Read { addr: RCC_AHB3ENR },
        ],
    ) + fmc_sdram_steps() + as_steps(
        seq![
            RegOp::Write { addr: QUADSPI_DCR, value: 26u32 << 16 },
            RegOp::Write { addr: QUADSPI_CCR, value: QUADSPI_CCR_FMODE_MEMMAP },
            RegOp::Write { addr: QUADSPI_CR, value: QUADSPI_CR_EN },
        ],
    )
}

/// The bring-up sequence the bootloader runs after copying `.data` and zeroing `.bss`.
pub fn boot_sequence() -> (r: Vec<BootStep>)
    ensures
        r@ == boot_steps(),
{
    let mut v: Vec<BootStep> = Vec::new();
    let mut clocks: Vec<RegOp> = Vec::new();
    clocks.push(RegOp::Modify { addr: RCC_AHB4ENR, mask: RCC_AHB4ENR_GPIOC_TO_I, value: RCC_AHB4ENR_GPIOC_TO_I });
    clocks.push(RegOp::Read { addr: RCC_AHB4ENR });
    append_ops(&mut v, clocks);
    append_ops(&mut v, status_leds_init());
    append_ops(&mut v, led_set(LED_DBG, true));
    append_ops(&mut v, board_pinmux_init());
    let mut fmc_clk: Vec<RegOp> = Vec::new();
    fmc_clk.push(
        RegOp::Modify {
            addr: RCC_AHB3ENR,
            mask: RCC_AHB3ENR_FMCEN | RCC_AHB3ENR_QSPIEN,
            value: RCC_AHB3ENR_FMCEN | RCC_AHB3ENR_QSPIEN,
        },
    );
    fmc_clk.push(RegOp::Read { addr: RCC_AHB3ENR });
    append_ops(&mut v, fmc_clk);
    let mut sdram = fmc_sdram_init();
    v.append(&mut sdram);
    append_ops(&mut v, quadspi_enable_memmap());
    proof {
        assert(v@ =~= boot_steps());
    }
    v
}

/// Register accesses of the hand-off: DBG and ERR off, RUN on, vector table moved.
pub open spec fn handoff_seq() -> Seq<RegOp> {
    output_level_ops(GPIOE, LED_DBG, false) + output_level_ops(GPIOE, LED_ERR, false)
        + output_level_ops(GPIOE, LED_RUN, true) + seq![RegOp::Write { addr: SCB_VTOR, value: OS_VECTOR_TABLE }]
}

/// Register accesses of the fatal path: RUN, DBG, PNC off and ERR on.
pub open spec fn halt_led_seq() -> Seq<RegOp> {
    output_level_ops(GPIOE, LED_RUN, false) + output_level_ops(GPIOE, LED_DBG, false)
        + output_level_ops(GPIOE, LED_ERR, true) + output_level_ops(GPIOE, LED_PNC, false)
}

/// Hand-off to the OS: DBG and ERR off, RUN on, and the vector table base moved to
/// the OS image (the caller then loads MSP and branches to the reset vector).
pub fn handoff_ops() -> (r: Vec<RegOp>)
    ensures
        r@ == handoff_seq(),
{
    let mut v = led_set(LED_DBG, false);
    let mut b = led_set(LED_ERR, false);
    v.append(&mut b);
    let mut c = led_set(LED_RUN, true);
    v.append(&mut c);
    v.push(RegOp::Write { addr: SCB_VTOR, value: OS_VECTOR_TABLE });
    v
}

/// Fatal path when NOR holds no bootable image: RUN, DBG, PNC off and ERR on.
pub fn halt_led_ops() -> (r: Vec<RegOp>)
    ensures
        r@ == halt_led_seq(),
{
    let mut v = led_set(LED_RUN, false);
    let mut b = led_set(LED_DBG, false);
    v.append(&mut b);
    let mut c = led_set(LED_ERR, true);
    v.append(&mut c);
    let mut d = led_set(LED_PNC, false);
    v.append(&mut d);
    v
}

/// What the bootloader does with the two words at the start of the OS image.
pub enum Handoff {
    /// Perform `ops`, load MSP with `msp` and branch to `entry`.
    Jump { ops: Vec<RegOp>, msp: u32, entry: u32 },
    /// Perform `ops`, show the fail panel for (`msp`, `reset`) and blink ERR for ever.
    Halt { ops: Vec<RegOp>, msp: u32, reset: u32 },
}

/// Decides the hand-off from the initial stack pointer and reset vector read from
/// the OS vector table: jump when both look valid, halt otherwise.
pub fn jump_to_os(msp: u32, reset: u32) -> (r: Handoff)
    ensures
        (msp_ok(msp) && reset_ok(reset)) ==> (r matches Handoff::Jump { ops, msp: m, entry }
            && ops@ == handoff_seq() && m == msp && entry == reset),
        !(msp_ok(msp) && reset_ok(reset)) ==> (r matches Handoff::Halt { ops, msp: m, reset: rv }
            && ops@ == halt_led_seq() && m == msp && rv == reset),
{
    if !os_vectors_look_valid(msp, reset) {
        return Handoff::Halt { ops: halt_led_ops(), msp, reset };
    }
    Handoff::Jump { ops: handoff_ops(), msp, entry: reset }
}

/// Two 16-bit register fields packed as `hi << 16 | lo`.
pub open spec fn pack16(hi: u32, lo: u32) -> u32 {
    (hi << 16u32) | lo
}

/// LTDC layer 1 set-up of the fail panel over the SDRAM framebuffer, with the same
/// timings as the OS (HSYNC 48, HBP 40, HFP 40, VSYNC 1, VBP 31, VFP 13, 800 x 480),
/// ending with the controller enabled and the shadow registers reloaded.
pub open spec fn ltdc_fb_ops() -> Seq<RegOp> {
    seq![
        RegOp::Modify { addr: RCC_APB3ENR, mask: RCC_APB3ENR_LTDCEN, value: RCC_APB3ENR_LTDCEN },
        RegOp::Read { addr: RCC_APB3ENR },
        RegOp::Write { addr: (LTDC_BASE + 0x08) as usize, value: pack16(47, 0) },
        RegOp::Write { addr: (LTDC_BASE + 0x0C) as usize, value: pack16(87, 31) },
        RegOp::Write { addr: (LTDC_BASE + 0x10) as usize, value: pack16(887, 511) },
        RegOp::Write { addr: (LTDC_BASE + 0x14) as usize, value: pack16(927, 524) },
        RegOp::Write { addr: (LTDC_BASE + 0x2C) as usize, value: 0 },
        RegOp::Write { addr: (LTDC_BASE + 0x88) as usize, value: pack16(887, 88) },
        RegOp::Write { addr: (LTDC_BASE + 0x8C) as usize, value: pack16(511, 32) },
        RegOp::Write { addr: (LTDC_BASE + 0x94) as usize, value: 0 },
        RegOp::Write { addr: (LTDC_BASE + 0x98) as usize, value: 0xFF },
        RegOp::Write { addr: (LTDC_BASE + 0xA0) as usize, value: 0x607 },
        RegOp::Write { addr: (LTDC_BASE + 0xAC) as usize, value: FB_BASE },
        RegOp::Write { addr: (LTDC_BASE + 0xB0) as usize, value: pack16(FB_STRIDE, (FB_STRIDE + 3) as u32) },
        RegOp::Write { addr: (LTDC_BASE + 0xB4) as usize, value: FB_H },
        RegOp::Write { addr: (LTDC_BASE + 0x84) as usize, value: 1 },
        RegOp::Write { addr: (LTDC_BASE + 0x24) as usize, value: 1 },
        RegOp::Write { addr: (LTDC_BASE + 0x18) as usize, value: 0x2221 },
        RegOp::Write { addr: (LTDC_BASE + 0x24) as usize, value: 1 },
    ]
}

fn ltdc_w(v: &mut Vec<RegOp>, off: usize, value: u32)
    requires
        off <= 0xB4,
    ensures
        final(v)@ == old(v)@.push(RegOp::Write { addr: (LTDC_BASE + off) as usize, value }),
{
    v.push(RegOp::Write { addr: LTDC_BASE + off, value });
}

/// Programs LTDC layer 1 to scan out the SDRAM framebuffer (fail panel).
pub fn ltdc_enable_fb() -> (r: Vec<RegOp>)
    ensures
        r@ == ltdc_fb_ops(),
{
    let mut v: Vec<RegOp> = Vec::new();
    v.push(RegOp::Modify { addr: RCC_APB3ENR, mask: RCC_APB3ENR_LTDCEN, value: RCC_APB3ENR_LTDCEN });
    v.push(RegOp::Read { addr: RCC_APB3ENR });
    let hsync = 48u32;
    let hbp = 40u32;
    let hfp = 40u32;
    let vsync = 1u32;
    let vbp = 31u32;
    let vfp = 13u32;
    let aw = FB_W;
    let ah = FB_H;
    let hsw = hsync - 1;
    let vsh = vsync - 1;
    let ahbp = hsync + hbp - 1;
    let avbp = vsync + vbp - 1;
    let aaw = hsync + hbp + aw - 1;
    let aah = vsync + vbp + ah - 1;
    let totalw = hsync + hbp + aw + hfp - 1;
    let totalh = vsync + vbp + ah + vfp - 1;
    ltdc_w(&mut v, 0x08, (hsw << 16) | vsh);
    ltdc_w(&mut v, 0x0C, (ahbp << 16) | avbp);
    ltdc_w(&mut v, 0x10, (aaw << 16) | aah);
    ltdc_w(&mut v, 0x14, (totalw << 16) | totalh);
    ltdc_w(&mut v, 0x2C, 0);
    let whst = hsync + hbp;
    let whsp = hsync + hbp + aw - 1;
    let wvst = vsync + vbp;
    let wvsp = vsync + vbp + ah - 1;
    ltdc_w(&mut v, 0x88, (whsp << 16) | whst);
    ltdc_w(&mut v, 0x8C, (wvsp << 16) | wvst);
    ltdc_w(&mut v, 0x94, 0);
    ltdc_w(&mut v, 0x98, 0xFF);
    ltdc_w(&mut v, 0xA0, 0x607);
    ltdc_w(&mut v, 0xAC, FB_BASE);
    ltdc_w(&mut v, 0xB0, (FB_STRIDE << 16) | (FB_STRIDE + 3));
    ltdc_w(&mut v, 0xB4, FB_H);
    ltdc_w(&mut v, 0x84, 1);
    ltdc_w(&mut v, 0x24, 1);
    ltdc_w(&mut v, 0x18, 0x2221);
    ltdc_w(&mut v, 0x24, 1);
    proof {
        assert(v@ =~= ltdc_fb_ops());
    }
    v
}

} // verus!
