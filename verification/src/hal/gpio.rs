//! GPIO: every pad is a [`Pin`]; claiming one yields the register operations that
//! configure it, and output/input handles compute their register accesses.
//!
//! `Pin<false>` (free, expansion and LED pads) can always be claimed as output or
//! input; `Pin<true>` (pads wired to FMC, QUADSPI, SWD, ...) only through the
//! `*_unchecked` methods.
use vstd::prelude::*;

use super::regs::{
    GPIO_AFRH, GPIO_AFRL, GPIO_BSRR, GPIO_IDR, GPIO_MODER, GPIO_ODR, GPIO_OSPEEDR, GPIO_OTYPER,
    GPIO_PUPDR, RCC_AHB4ENR, RCC_BASE, RegOp, after_op, after_ops, lemma_after_ops_append, lemma_after_two, lemma_field2_write,
    lemma_nibble_write, modify_spec,
};

verus! {

/// GPIO ports A to K.
#[derive(Clone, Copy, Debug, PartialEq, Eq, Structural)]
pub enum Port {
    A,
    B,
    C,
    D,
    E,
    F,
    G,
    H,
    I,
    J,
    K,
}

impl Port {
    /// Position of the port (A = 0, ..., K = 10).
    pub open spec fn index(self) -> u8 {
        match self {
            Port::A => 0,
            Port::B => 1,
            Port::C => 2,
            Port::D => 3,
            Port::E => 4,
            Port::F => 5,
            Port::G => 6,
            Port::H => 7,
            Port::I => 8,
            Port::J => 9,
            Port::K => 10,
        }
    }

    /// The port at position `v`, if there is one.
    pub fn from_u8(v: u8) -> (r: Option<Port>)
        ensures
            match r {
                Some(p) => v <= 10 && p.index() == v,
                None => v > 10,
            },
    {
        match v {
            0 => Some(Port::A),
            1 => Some(Port::B),
            2 => Some(Port::C),
            3 => Some(Port::D),
            4 => Some(Port::E),
            5 => Some(Port::F),
            6 => Some(Port::G),
            7 => Some(Port::H),
            8 => Some(Port::I),
            9 => Some(Port::J),
            10 => Some(Port::K),
            _ => None,
        }
    }

    /// Position of the port (A = 0, ..., K = 10).
    pub fn number(self) -> (r: u8)
        ensures
            r == self.index(),
    {
        match self {
            Port::A => 0,
            Port::B => 1,
            Port::C => 2,
            Port::D => 3,
            Port::E => 4,
            Port::F => 5,
            Port::G => 6,
            Port::H => 7,
            Port::I => 8,
            Port::J => 9,
            Port::K => 10,
        }
    }

    /// Clock-enable bit of the port in RCC AHB4ENR.
    pub fn ahb4_bit(self) -> (r: u32)
        ensures
            r == 1u32 << self.index(),
    {
        1u32 << self.number()
    }

    /// Base address of the port's register block.
    pub fn base(self) -> (r: usize)
        ensures
            r == 0x5802_0000 + 0x400 * self.index(),
    {
        match self {
            Port::A => 0x5802_0000usize,
            Port::B => 0x5802_0400,
            Port::C => 0x5802_0800,
            Port::D => 0x5802_0C00,
            Port::E => 0x5802_1000,
            Port::F => 0x5802_1400,
            Port::G => 0x5802_1800,
            Port::H => 0x5802_1C00,
            Port::I => 0x5802_2000,
            Port::J => 0x5802_2400,
            Port::K => 0x5802_2800,
        }
    }
}

/// Address of register `offset` of `port`.
pub open spec fn reg_addr(port: Port, offset: usize) -> usize {
    (0x5802_0000 + 0x400 * port.index() + offset) as usize
}

/// The two-bit field of pad `num` in a MODER/OSPEEDR/PUPDR-style register.
pub open spec fn field2(x: u32, num: u8) -> u32 {
    (x >> ((num * 2) as u32)) & 3
}

/// Bit `n` of `x` is set.
pub open spec fn bit_of(x: u32, n: u32) -> bool {
    (x >> n) & 1 == 1
}

/// Sets the two-bit field of pad `num` of register `offset` to `v`.
pub open spec fn field2_op(port: Port, offset: usize, num: u8, v: u32) -> RegOp {
    RegOp::Modify {
        addr: reg_addr(port, offset),
        mask: 3u32 << ((num * 2) as u32),
        value: v << ((num * 2) as u32),
    }
}

/// Makes pad `num` push-pull (clears its OTYPER bit).
pub open spec fn push_pull_op(port: Port, num: u8) -> RegOp {
    RegOp::Modify { addr: reg_addr(port, GPIO_OTYPER), mask: 1u32 << num, value: 0 }
}

/// Turns the port's clock on in RCC AHB4ENR.
pub open spec fn port_clock_op(port: Port) -> RegOp {
    RegOp::Modify {
        addr: (RCC_BASE + RCC_AHB4ENR) as usize,
        mask: 1u32 << port.index(),
        value: 1u32 << port.index(),
    }
}

/// Turns the port's clock on, then reads AHB4ENR back so the enable has taken effect
/// before the port is configured.
pub open spec fn port_clock_ops(port: Port) -> Seq<RegOp> {
    seq![port_clock_op(port), RegOp::Read { addr: (RCC_BASE + RCC_AHB4ENR) as usize }]
}

/// What the set/reset register does to the output data register: the low half sets
/// pads, the high half resets them (setting wins when both are given).
pub open spec fn bsrr_effect(odr: u32, w: u32) -> u32 {
    (odr & !(w >> 16u32)) | (w & 0xFFFF)
}

/// The set/reset word that drives pad `num` to `high`.
pub open spec fn bsrr_word(num: u8, high: bool) -> u32 {
    if high {
        1u32 << num
    } else {
        1u32 << ((num + 16) as u32)
    }
}

/// Register operations that enable the port clock.
pub fn enable_port(port: Port) -> (r: Vec<RegOp>)
    ensures
        r@ == port_clock_ops(port),
{
    let bit = port.ahb4_bit();
    let mut v: Vec<RegOp> = Vec::new();
    v.push(RegOp::Modify { addr: RCC_BASE + RCC_AHB4ENR, mask: bit, value: bit });
    v.push(RegOp::Read { addr: RCC_BASE + RCC_AHB4ENR });
    proof {
        assert(v@ =~= port_clock_ops(port));
    }
    v
}

fn field2_update(port: Port, offset: usize, num: u8, v: u32) -> (r: RegOp)
    requires
        num < 16,
        v <= 3,
        offset <= 0x24,
    ensures
        r == field2_op(port, offset, num, v),
{
    let shift = (num as u32) * 2;
    RegOp::Modify { addr: port.base() + offset, mask: 3u32 << shift, value: v << shift }
}

/// Sets the mode field (input 00, output 01, alternate 10, analog 11) of a pad.
pub fn set_moder(port: Port, num: u8, mode: u32) -> (r: RegOp)
    requires
        num < 16,
        mode <= 3,
    ensures
        r == field2_op(port, GPIO_MODER, num, mode),
{
    field2_update(port, GPIO_MODER, num, mode)
}

/// Makes a pad push-pull.
pub fn set_otyper_pp(port: Port, num: u8) -> (r: RegOp)
    requires
        num < 16,
    ensures
        r == push_pull_op(port, num),
{
    RegOp::Modify { addr: port.base() + GPIO_OTYPER, mask: 1u32 << num, value: 0 }
}

/// Gives a pad the highest output speed.
pub fn set_ospeed_high(port: Port, num: u8) -> (r: RegOp)
    requires
        num < 16,
    ensures
        r == field2_op(port, GPIO_OSPEEDR, num, 3),
{
    field2_update(port, GPIO_OSPEEDR, num, 3)
}

/// Sets the pull-up/pull-down field (none 00, pull-up 01, pull-down 10) of a pad.
pub fn set_pupdr(port: Port, num: u8, pupd: u32) -> (r: RegOp)
    requires
        num < 16,
        pupd <= 3,
    ensures
        r == field2_op(port, GPIO_PUPDR, num, pupd),
{
    field2_update(port, GPIO_PUPDR, num, pupd)
}

/// The register operations that make a pad a push-pull, high-speed output without pulls.
pub open spec fn output_config(port: Port, num: u8) -> Seq<RegOp> {
    seq![
        field2_op(port, GPIO_MODER, num, 1),
        push_pull_op(port, num),
        field2_op(port, GPIO_OSPEEDR, num, 3),
        field2_op(port, GPIO_PUPDR, num, 0),
    ]
}

/// The register operations that make a pad a floating input.
pub open spec fn input_config(port: Port, num: u8) -> Seq<RegOp> {
    seq![field2_op(port, GPIO_MODER, num, 0), field2_op(port, GPIO_PUPDR, num, 0)]
}

/// Configures a pad as push-pull, high-speed output without pulls.
pub fn configure_output(port: Port, num: u8) -> (r: Vec<RegOp>)
    requires
        num < 16,
    ensures
        r@ == output_config(port, num),
{
    let mut v: Vec<RegOp> = Vec::new();
    v.push(set_moder(port, num, 1));
    v.push(set_otyper_pp(port, num));
    v.push(set_ospeed_high(port, num));
    v.push(set_pupdr(port, num, 0));
    proof {
        assert(v@ =~= output_config(port, num));
    }
    v
}

/// Configures a pad as floating input.
pub fn configure_input(port: Port, num: u8) -> (r: Vec<RegOp>)
    requires
        num < 16,
    ensures
        r@ == input_config(port, num),
{
    let mut v: Vec<RegOp> = Vec::new();
    v.push(set_moder(port, num, 0));
    v.push(set_pupdr(port, num, 0));
    proof {
        assert(v@ =~= input_config(port, num));
    }
    v
}

/// Pad `num` of `port` reads high in data register value `data` (IDR or ODR).
pub fn is_data_high(data: u32, num: u8) -> (r: bool)
    requires
        num < 16,
    ensures
        r == bit_of(data, num as u32),
{
    let n = num as u32;
    let r = data & (1u32 << n) != 0;
    assert(((data & (1u32 << n)) != 0) == ((data >> n) & 1 == 1)) by (bit_vector)
        requires n < 16;
    r
}

/// Physical pad. `RESTRICTED = true` marks a pad hardwired to a board function.
#[derive(Clone, Copy, Debug)]
pub struct Pin<const RESTRICTED: bool> {
    pub port: Port,
    pub num: u8,
}

/// Push-pull output handle.
pub struct Output {
    port: Port,
    num: u8,
}

/// Input handle.
pub struct Input {
    port: Port,
    num: u8,
}

impl View for Output {
    type V = (Port, u8);

    closed spec fn view(&self) -> (Port, u8) {
        (self.port, self.num)
    }
}

impl View for Input {
    type V = (Port, u8);

    closed spec fn view(&self) -> (Port, u8) {
        (self.port, self.num)
    }
}

impl<const RESTRICTED: bool> Pin<RESTRICTED> {
    /// The pad's type marks it as hardwired to a board function.
    pub open spec fn restricted(&self) -> bool {
        RESTRICTED
    }

    pub fn new(port: Port, num: u8) -> (r: Self)
        ensures
            r.port == port,
            r.num == num,
    {
        Pin { port, num }
    }

    /// Claims the pad as push-pull output without the restricted-pad gate: enables the
    /// port clock and configures the pad.
    pub fn into_output_unchecked(self) -> (r: (Output, Vec<RegOp>))
        requires
            self.num < 16,
        ensures
            r.0@ == (self.port, self.num),
            r.1@ == port_clock_ops(self.port) + output_config(self.port, self.num),
    {
        let mut ops = enable_port(self.port);
        let mut cfg = configure_output(self.port, self.num);
        ops.append(&mut cfg);
        proof {
            assert(ops@ =~= port_clock_ops(self.port) + output_config(self.port, self.num));
        }
        (Output { port: self.port, num: self.num }, ops)
    }

    /// Claims the pad as floating input without the restricted-pad gate.
    pub fn into_input_unchecked(self) -> (r: (Input, Vec<RegOp>))
        requires
            self.num < 16,
        ensures
            r.0@ == (self.port, self.num),
            r.1@ == port_clock_ops(self.port) + input_config(self.port, self.num),
    {
        let mut ops = enable_port(self.port);
        let mut cfg = configure_input(self.port, self.num);
        ops.append(&mut cfg);
        proof {
            assert(ops@ =~= port_clock_ops(self.port) + input_config(self.port, self.num));
        }
        (Input { port: self.port, num: self.num }, ops)
    }
}

impl Pin<false> {
    /// Claims the pad as push-pull output.
    pub fn into_output(self) -> (r: (Output, Vec<RegOp>))
        requires
            self.num < 16,
        ensures
            r.0@ == (self.port, self.num),
            r.1@ == port_clock_ops(self.port) + output_config(self.port, self.num),
    {
        self.into_output_unchecked()
    }

    /// Claims the pad as floating input.
    pub fn into_input(self) -> (r: (Input, Vec<RegOp>))
        requires
            self.num < 16,
        ensures
            r.0@ == (self.port, self.num),
            r.1@ == port_clock_ops(self.port) + input_config(self.port, self.num),
    {
        self.into_input_unchecked()
    }

    /// Claims the pad as input with pull-up.
    pub fn into_input_pull_up(self) -> (r: (Input, Vec<RegOp>))
        requires
            self.num < 16,
        ensures
            r.0@ == (self.port, self.num),
            r.1@ == port_clock_ops(self.port) + input_config(self.port, self.num) + seq![
                field2_op(self.port, GPIO_PUPDR, self.num, 1),
            ],
    {
        let mut ops = enable_port(self.port);
        let mut cfg = configure_input(self.port, self.num);
        ops.append(&mut cfg);
        ops.push(set_pupdr(self.port, self.num, 1));
        proof {
            assert(ops@ =~= port_clock_ops(self.port) + input_config(self.port, self.num) + seq![
                field2_op(self.port, GPIO_PUPDR, self.num, 1),
            ]);
        }
        (Input { port: self.port, num: self.num }, ops)
    }
}

impl Output {
    /// Address of the pad's output data register (read by `toggle`/`is_set_high`).
    pub fn odr_addr(&self) -> (r: usize)
        ensures
            r == reg_addr(self@.0, GPIO_ODR),
    {
        self.port.base() + GPIO_ODR
    }

    /// Drives the pad to `high` through the set/reset register.
    pub fn set(&mut self, high: bool) -> (r: RegOp)
        requires
            old(self)@.1 < 16,
        ensures
            final(self)@ == old(self)@,
            r == (RegOp::Write { addr: reg_addr(old(self)@.0, GPIO_BSRR), value: bsrr_word(old(self)@.1, high) }),
    {
        let bit = if high {
            1u32 << self.num
        } else {
            1u32 << (self.num + 16)
        };
        RegOp::Write { addr: self.port.base() + GPIO_BSRR, value: bit }
    }

    /// Drives the pad high.
    pub fn set_high(&mut self) -> (r: RegOp)
        requires
            old(self)@.1 < 16,
        ensures
            final(self)@ == old(self)@,
            r == (RegOp::Write { addr: reg_addr(old(self)@.0, GPIO_BSRR), value: bsrr_word(old(self)@.1, true) }),
    {
        self.set(true)
    }

    /// Drives the pad low.
    pub fn set_low(&mut self) -> (r: RegOp)
        requires
            old(self)@.1 < 16,
        ensures
            final(self)@ == old(self)@,
            r == (RegOp::Write { addr: reg_addr(old(self)@.0, GPIO_BSRR), value: bsrr_word(old(self)@.1, false) }),
    {
        self.set(false)
    }

    /// Inverts the pad, given the output data register value `odr` just read.
    pub fn toggle(&mut self, odr: u32) -> (r: RegOp)
        requires
            old(self)@.1 < 16,
        ensures
            final(self)@ == old(self)@,
            r == (RegOp::Write {
                addr: reg_addr(old(self)@.0, GPIO_BSRR),
                value: bsrr_word(old(self)@.1, !bit_of(odr, old(self)@.1 as u32)),
            }),
    {
        let high = !is_data_high(odr, self.num);
        self.set(high)
    }

    /// The pad is driven high, given the output data register value `odr`.
    pub fn is_set_high(&self, odr: u32) -> (r: bool)
        requires
            self@.1 < 16,
        ensures
            r == bit_of(odr, self@.1 as u32),
    {
        is_data_high(odr, self.num)
    }
}

impl Input {
    /// Address of the pad's input data register.
    pub fn idr_addr(&self) -> (r: usize)
        ensures
            r == reg_addr(self@.0, GPIO_IDR),
    {
        self.port.base() + GPIO_IDR
    }

    /// The pad reads high, given the input data register value `idr`.
    pub fn is_high(&self, idr: u32) -> (r: bool)
        requires
            self@.1 < 16,
        ensures
            r == bit_of(idr, self@.1 as u32),
    {
        is_data_high(idr, self.num)
    }

    /// The pad reads low, given the input data register value `idr`.
    pub fn is_low(&self, idr: u32) -> (r: bool)
        requires
            self@.1 < 16,
        ensures
            r == !bit_of(idr, self@.1 as u32),
    {
        !self.is_high(idr)
    }
}

/// Turns on the clocks of all eleven GPIO ports and reads AHB4ENR back.
pub fn init_clocks() -> (r: Vec<RegOp>)
    ensures
        r@ == seq![
            RegOp::Modify { addr: (RCC_BASE + RCC_AHB4ENR) as usize, mask: 0x7FF, value: 0x7FF },
            RegOp::Read { addr: (RCC_BASE + RCC_AHB4ENR) as usize },
        ],
{
    let mut v: Vec<RegOp> = Vec::new();
    v.push(RegOp::Modify { addr: RCC_BASE + RCC_AHB4ENR, mask: 0x7FF, value: 0x7FF });
    v.push(RegOp::Read { addr: RCC_BASE + RCC_AHB4ENR });
    proof {
        assert(v@ =~= seq![
            RegOp::Modify { addr: (RCC_BASE + RCC_AHB4ENR) as usize, mask: 0x7FF, value: 0x7FF },
            RegOp::Read { addr: (RCC_BASE + RCC_AHB4ENR) as usize },
        ]);
    }
    v
}

/// The register operations that route a pad to alternate function `af`.
pub open spec fn af_config(base: usize, num: u8, af: u8) -> Seq<RegOp> {
    seq![
        RegOp::Modify {
            addr: (base + GPIO_MODER) as usize,
            mask: 3u32 << ((num * 2) as u32),
            value: 2u32 << ((num * 2) as u32),
        },
        if num < 8 {
            RegOp::Modify {
                addr: (base + GPIO_AFRL) as usize,
                mask: 0xFu32 << ((num * 4) as u32),
                value: (af as u32) << ((num * 4) as u32),
            }
        } else {
            RegOp::Modify {
                addr: (base + GPIO_AFRH) as usize,
                mask: 0xFu32 << (((num - 8) * 4) as u32),
                value: (af as u32) << (((num - 8) * 4) as u32),
            }
        },
    ]
}

/// Routes pad `num` of the port at `base` to alternate function `af`.
pub fn configure_af_pin(base: usize, num: u8, af: u8) -> (r: Vec<RegOp>)
    requires
        num < 16,
        base + GPIO_AFRH <= usize::MAX,
    ensures
        r@ == af_config(base, num, af),
{
    let shift = (num as u32) * 2;
    let mut v: Vec<RegOp> = Vec::new();
    v.push(RegOp::Modify { addr: base + GPIO_MODER, mask: 3u32 << shift, value: 2u32 << shift });
    let a = af as u32;
    if num < 8 {
        let s = (num as u32) * 4;
        v.push(RegOp::Modify { addr: base + GPIO_AFRL, mask: 0xFu32 << s, value: a << s });
    } else {
        let s = ((num - 8) as u32) * 4;
        v.push(RegOp::Modify { addr: base + GPIO_AFRH, mask: 0xFu32 << s, value: a << s });
    }
    proof {
        assert(v@ =~= af_config(base, num, af));
    }
    v
}

/// Writing a set/reset word drives pad `num` to the requested level and leaves every
/// other pad as it was.
pub proof fn lemma_bsrr_drives_only_its_pad(odr: u32, num: u8, high: bool, other: u8)
    requires
        num < 16,
        other < 16,
    ensures
        bit_of(bsrr_effect(odr, bsrr_word(num, high)), num as u32) == high,
        other != num ==> bit_of(bsrr_effect(odr, bsrr_word(num, high)), other as u32) == bit_of(
            odr,
            other as u32,
        ),
{
    let n = num as u32;
    let m = other as u32;
    let w = bsrr_word(num, high);
    if high {
        assert(bit_of(bsrr_effect(odr, w), n)) by (bit_vector)
            requires n < 16, w == 1u32 << n;
        assert(m != n ==> bit_of(bsrr_effect(odr, w), m) == bit_of(odr, m)) by (bit_vector)
            requires n < 16, m < 16, w == 1u32 << n;
    } else {
        assert(!bit_of(bsrr_effect(odr, w), n)) by (bit_vector)
            requires n < 16, w == 1u32 << ((n + 16) as u32);
        assert(m != n ==> bit_of(bsrr_effect(odr, w), m) == bit_of(odr, m)) by (bit_vector)
            requires n < 16, m < 16, w == 1u32 << ((n + 16) as u32);
    }
}

/// A two-bit field update sets that pad's field and leaves the other pads' fields alone.
pub proof fn lemma_field2_update(old: u32, num: u8, v: u32, other: u8)
    requires
        num < 16,
        other < 16,
        v <= 3,
    ensures
        field2(super::regs::modify_spec(old, 3u32 << ((num * 2) as u32), v << ((num * 2) as u32)), num) == v,
        other != num ==> field2(
            super::regs::modify_spec(old, 3u32 << ((num * 2) as u32), v << ((num * 2) as u32)),
            other,
        ) == field2(old, other),
{
    let s = (num * 2) as u32;
    let t = (other * 2) as u32;
    let x = super::regs::modify_spec(old, 3u32 << s, v << s);
    assert((x >> s) & 3 == v) by (bit_vector)
        requires s <= 30, v <= 3, x == (old & !(3u32 << s)) | ((v << s) & (3u32 << s));
    assert(s != t ==> (x >> t) & 3 == (old >> t) & 3) by (bit_vector)
        requires
            s <= 30,
            t <= 30,
            s % 2 == 0,
            t % 2 == 0,
            v <= 3,
            x == (old & !(3u32 << s)) | ((v << s) & (3u32 << s));
}

/// Claiming a pad as a floating input (the operations of `into_input` and
/// `into_input_unchecked`) leaves, whatever the registers held, the pad's mode field
/// at 00 (input) and its pull field at 00 (no pull), and every other pad's mode and
/// pull fields as they were.
pub proof fn lemma_into_input_floating(port: Port, num: u8, other: u8, mem: Map<usize, u32>)
    requires
        num < 16,
        other < 16,
    ensures
        ({
            let m = after_ops(mem, port_clock_ops(port) + input_config(port, num));
            let moder = (0x5802_0000 + 0x400 * port.index()) as usize;
            let pupdr = (0x5802_000C + 0x400 * port.index()) as usize;
            &&& (m[moder] >> (2 * num) as u32) & 3 == 0
            &&& (m[pupdr] >> (2 * num) as u32) & 3 == 0
            &&& other != num ==> (m[moder] >> (2 * other) as u32) & 3 == (mem[moder] >> (2 * other) as u32) & 3
            &&& other != num ==> (m[pupdr] >> (2 * other) as u32) & 3 == (mem[pupdr] >> (2 * other) as u32) & 3
        }),
{
    let moder = (0x5802_0000 + 0x400 * port.index()) as usize;
    let pupdr = (0x5802_000C + 0x400 * port.index()) as usize;
    let rcc = (RCC_BASE + RCC_AHB4ENR) as usize;
    let s = (2 * num) as u32;
    let t = (2 * other) as u32;
    lemma_after_ops_append(mem, port_clock_ops(port), input_config(port, num));
    lemma_after_two(mem, port_clock_op(port), RegOp::Read { addr: rcc });
    let m1 = after_ops(mem, port_clock_ops(port));
    assert(m1 == mem.insert(rcc, modify_spec(mem[rcc], 1u32 << port.index(), 1u32 << port.index())));
    lemma_after_two(m1, field2_op(port, GPIO_MODER, num, 0), field2_op(port, GPIO_PUPDR, num, 0));
    assert(reg_addr(port, GPIO_MODER) == moder);
    assert(reg_addr(port, GPIO_PUPDR) == pupdr);
    assert(m1[moder] == mem[moder]);
    assert(m1[pupdr] == mem[pupdr]);
    assert(((num * 2) as u32) == s);
    assert(0u32 << s == 0) by (bit_vector);
    lemma_field2_write(mem[moder], s, t, 0);
    lemma_field2_write(mem[pupdr], s, t, 0);
}

/// Claiming a pad as input with pull-up (`into_input_pull_up`) leaves its mode field
/// at 00 and its pull field at 01 (pull-up), whatever the registers held.
pub proof fn lemma_into_input_pull_up(port: Port, num: u8, mem: Map<usize, u32>)
    requires
        num < 16,
    ensures
        ({
            let m = after_ops(
                mem,
                port_clock_ops(port) + input_config(port, num) + seq![field2_op(port, GPIO_PUPDR, num, 1)],
            );
            &&& (m[(0x5802_0000 + 0x400 * port.index()) as usize] >> (2 * num) as u32) & 3 == 0
            &&& (m[(0x5802_000C + 0x400 * port.index()) as usize] >> (2 * num) as u32) & 3 == 1
        }),
{
    let pupdr = (0x5802_000C + 0x400 * port.index()) as usize;
    let s = (2 * num) as u32;
    let ops = port_clock_ops(port) + input_config(port, num);
    let last = field2_op(port, GPIO_PUPDR, num, 1);
    lemma_into_input_floating(port, num, num, mem);
    let m1 = after_ops(mem, ops);
    assert((ops + seq![last]).drop_last() =~= ops);
    assert((ops + seq![last]).last() == last);
    assert(reg_addr(port, GPIO_PUPDR) == pupdr);
    assert(((num * 2) as u32) == s);
    lemma_field2_write(m1[pupdr], s, s, 1);
}

/// Claiming a pad as output (the operations of `into_output` and
/// `into_output_unchecked`) leaves, whatever the registers held, its mode field at 01
/// (output), its type bit at 0 (push-pull), its speed field at 11 (very high) and its
/// pull field at 00 (none), and every other pad's mode field as it was.
pub proof fn lemma_into_output_push_pull(port: Port, num: u8, other: u8, mem: Map<usize, u32>)
    requires
        num < 16,
        other < 16,
    ensures
        ({
            let m = after_ops(mem, port_clock_ops(port) + output_config(port, num));
            let base = (0x5802_0000 + 0x400 * port.index()) as usize;
            &&& (m[base] >> (2 * num) as u32) & 3 == 1
            &&& (m[(base + 4) as usize] >> num as u32) & 1 == 0
            &&& (m[(base + 8) as usize] >> (2 * num) as u32) & 3 == 3
            &&& (m[(base + 0xC) as usize] >> (2 * num) as u32) & 3 == 0
            &&& other != num ==> (m[base] >> (2 * other) as u32) & 3 == (mem[base] >> (2 * other) as u32) & 3
        }),
{
    let base = (0x5802_0000 + 0x400 * port.index()) as usize;
    let rcc = (RCC_BASE + RCC_AHB4ENR) as usize;
    let s = (2 * num) as u32;
    let t = (2 * other) as u32;
    let n = num as u32;
    lemma_after_ops_append(mem, port_clock_ops(port), output_config(port, num));
    lemma_after_two(mem, port_clock_op(port), RegOp::Read { addr: rcc });
    let m1 = after_ops(mem, port_clock_ops(port));
    let a = field2_op(port, GPIO_MODER, num, 1);
    let b = push_pull_op(port, num);
    let c = field2_op(port, GPIO_OSPEEDR, num, 3);
    let d = field2_op(port, GPIO_PUPDR, num, 0);
    assert(output_config(port, num) =~= seq![a, b] + seq![c, d]);
    lemma_after_ops_append(m1, seq![a, b], seq![c, d]);
    lemma_after_two(m1, a, b);
    lemma_after_two(after_ops(m1, seq![a, b]), c, d);
    assert(((num * 2) as u32) == s);
    assert(0u32 << s == 0) by (bit_vector);
    lemma_field2_write(mem[base], s, t, 1);
    lemma_field2_write(mem[(base + 8) as usize], s, t, 3);
    lemma_field2_write(mem[(base + 0xC) as usize], s, t, 0);
    let o = mem[(base + 4) as usize];
    assert((modify_spec(o, 1u32 << n, 0) >> n) & 1 == 0) by (bit_vector)
        requires n < 16;
}

/// Routing pad `num` of the port at `base` to alternate function `af` (the operations
/// of `configure_af_pin`) leaves, whatever the registers held, the pad's mode field at
/// 10 (alternate function) and its function nibble (in AFRL for pads 0 to 7, in AFRH
/// for pads 8 to 15) at `af`, with every other pad's mode field and nibble unchanged.
pub proof fn lemma_af_config_fields(base: usize, num: u8, af: u8, q: u8, mem: Map<usize, u32>)
    requires
        num < 16,
        q < 16,
        af <= 15,
        base + 0x24 <= usize::MAX,
    ensures
        ({
            let m = after_ops(mem, af_config(base, num, af));
            let afr_n = (base + 0x20 + 4 * (num / 8)) as usize;
            let afr_q = (base + 0x20 + 4 * (q / 8)) as usize;
            &&& (m[base] >> (2 * num) as u32) & 3 == 2
            &&& q != num ==> (m[base] >> (2 * q) as u32) & 3 == (mem[base] >> (2 * q) as u32) & 3
            &&& (m[afr_n] >> (4 * (num % 8)) as u32) & 0xF == af
            &&& q != num ==> (m[afr_q] >> (4 * (q % 8)) as u32) & 0xF == (mem[afr_q] >> (4 * (q % 8)) as u32)
                & 0xF
        }),
{
    let ops = af_config(base, num, af);
    lemma_after_two(mem, ops[0], ops[1]);
    assert(ops =~= seq![ops[0], ops[1]]);
    let s = (2 * num) as u32;
    let t = (2 * q) as u32;
    assert(((num * 2) as u32) == s);
    lemma_field2_write(mem[base], s, t, 2);
    let m1 = after_op(mem, ops[0]);
    let sh = (4 * (num % 8)) as u32;
    let th = (4 * (q % 8)) as u32;
    if num < 8 {
        assert(((num * 4) as u32) == sh);
    } else {
        assert((((num - 8) * 4) as u32) == sh);
    }
    let afr_n = (base + 0x20 + 4 * (num / 8)) as usize;
    let afr_q = (base + 0x20 + 4 * (q / 8)) as usize;
    assert(m1[afr_n] == mem[afr_n]);
    assert(m1[afr_q] == mem[afr_q]);
    lemma_nibble_write(mem[afr_n], sh, th, af as u32);
    if q != num && q / 8 == num / 8 {
        assert(sh != th);
    }
}

} // verus!
