//! STM32H745 register addresses (RM0433) and the register operations the drivers ask
//! the memory-mapped I/O layer to perform.
use vstd::prelude::*;

verus! {

pub const RCC_BASE: usize = 0x5802_4400;

pub const GPIOA_BASE: usize = 0x5802_0000;

pub const USART1_BASE: usize = 0x4001_1000;

/// RCC register offsets.
pub const RCC_CFGR: usize = 0x10;

pub const RCC_D2CFGR: usize = 0x8C;

pub const RCC_AHB4ENR: usize = 0xE0;

pub const RCC_APB2ENR: usize = 0xF0;

/// RCC enable bits.
pub const RCC_GPIOAEN: u32 = 1 << 0;

pub const RCC_USART1EN: u32 = 1 << 4;

/// GPIO register offsets.
pub const GPIO_MODER: usize = 0x00;

pub const GPIO_OTYPER: usize = 0x04;

pub const GPIO_OSPEEDR: usize = 0x08;

pub const GPIO_PUPDR: usize = 0x0C;

pub const GPIO_IDR: usize = 0x10;

pub const GPIO_ODR: usize = 0x14;

pub const GPIO_BSRR: usize = 0x18;

pub const GPIO_AFRL: usize = 0x20;

pub const GPIO_AFRH: usize = 0x24;

/// USART register offsets and bits.
pub const USART_CR1: usize = 0x00;

pub const USART_BRR: usize = 0x0C;

pub const USART_ISR: usize = 0x1C;

pub const USART_TDR: usize = 0x28;

pub const USART_UE: u32 = 1 << 0;

pub const USART_TE: u32 = 1 << 3;

pub const USART_TXE: u32 = 1 << 7;

/// A GPIO port identified by the base address of its register block.
#[derive(Clone, Copy, Debug, PartialEq, Eq, Structural)]
pub struct GpioId {
    pub base: usize,
}

/// Port A, the console port.
pub fn gpioa() -> (r: GpioId)
    ensures
        r.base == GPIOA_BASE,
{
    GpioId { base: GPIOA_BASE }
}

/// One access to a 32-bit memory-mapped register.
#[derive(Clone, Copy, Debug, PartialEq, Eq, Structural)]
pub enum RegOp {
    /// Read the register, replace the bits under `mask` by those of `value`, write back.
    Modify { addr: usize, mask: u32, value: u32 },
    /// Write `value` without reading (e.g. set/reset registers).
    Write { addr: usize, value: u32 },
    /// Read the register and discard the value: a read-back that makes sure an
    /// earlier write (such as a clock enable) has reached the peripheral.
    Read { addr: usize },
}

/// The value a read-modify-write leaves in a register that held `old`.
pub open spec fn modify_spec(old: u32, mask: u32, value: u32) -> u32 {
    (old & !mask) | (value & mask)
}

impl RegOp {
    /// Address the operation targets.
    pub fn addr(&self) -> (r: usize)
        ensures
            r == match *self {
                RegOp::Modify { addr, .. } => addr,
                RegOp::Write { addr, .. } => addr,
                RegOp::Read { addr } => addr,
            },
    {
        match *self {
            RegOp::Modify { addr, .. } => addr,
            RegOp::Write { addr, .. } => addr,
            RegOp::Read { addr } => addr,
        }
    }

    /// The operation reads the register first.
    pub fn reads(&self) -> (r: bool)
        ensures
            r == (*self is Modify || *self is Read),
    {
        match *self {
            RegOp::Modify { .. } => true,
            RegOp::Write { .. } => false,
            RegOp::Read { .. } => true,
        }
    }

    /// The operation writes the register.
    pub fn writes(&self) -> (r: bool)
        ensures
            r == !(*self is Read),
    {
        match *self {
            RegOp::Read { .. } => false,
            _ => true,
        }
    }

    /// The register's value after the operation, given the value `old` it held (a
    /// plain write ignores it, a read leaves it).
    pub fn apply(&self, old: u32) -> (r: u32)
        ensures
            r == match *self {
                RegOp::Modify { mask, value, .. } => modify_spec(old, mask, value),
                RegOp::Write { value, .. } => value,
                RegOp::Read { .. } => old,
            },
    {
        match *self {
            RegOp::Modify { mask, value, .. } => (old & !mask) | (value & mask),
            RegOp::Write { value, .. } => value,
            RegOp::Read { .. } => old,
        }
    }
}

/// The registers, by address, after `op` is performed on registers `mem`.
pub open spec fn after_op(mem: Map<usize, u32>, op: RegOp) -> Map<usize, u32> {
    match op {
        RegOp::Modify { addr, mask, value } => mem.insert(addr, modify_spec(mem[addr], mask, value)),
        RegOp::Write { addr, value } => mem.insert(addr, value),
        RegOp::Read { .. } => mem,
    }
}

/// The registers after `ops` are performed in order on registers `mem`.
pub open spec fn after_ops(mem: Map<usize, u32>, ops: Seq<RegOp>) -> Map<usize, u32>
    decreases ops.len(),
{
    if ops.len() == 0 {
        mem
    } else {
        after_op(after_ops(mem, ops.drop_last()), ops.last())
    }
}

/// Performing `a` then `b` is performing `a + b`.
pub proof fn lemma_after_ops_append(mem: Map<usize, u32>, a: Seq<RegOp>, b: Seq<RegOp>)
    ensures
        after_ops(mem, a + b) == after_ops(after_ops(mem, a), b),
    decreases b.len(),
{
    if b.len() == 0 {
        assert(a + b =~= a);
    } else {
        assert((a + b).drop_last() =~= a + b.drop_last());
        assert((a + b).last() == b.last());
        lemma_after_ops_append(mem, a, b.drop_last());
    }
}

/// The registers after two operations.
pub proof fn lemma_after_two(mem: Map<usize, u32>, a: RegOp, b: RegOp)
    ensures
        after_ops(mem, seq![a, b]) == after_op(after_op(mem, a), b),
{
    assert(seq![a, b].drop_last() =~= seq![a]);
    assert(seq![a].drop_last() =~= Seq::<RegOp>::empty());
    assert(after_ops(mem, Seq::<RegOp>::empty()) == mem);
    assert(after_ops(mem, seq![a]) == after_op(mem, a));
    assert(seq![a, b].last() == b);
}

/// A two-bit field write at bit `s` sets that field to `v` and keeps every other
/// two-bit field.
pub proof fn lemma_field2_write(old: u32, s: u32, t: u32, v: u32)
    requires
        s <= 30,
        t <= 30,
        s % 2 == 0,
        t % 2 == 0,
        v <= 3,
    ensures
        (modify_spec(old, 3u32 << s, v << s) >> s) & 3 == v,
        s != t ==> (modify_spec(old, 3u32 << s, v << s) >> t) & 3 == (old >> t) & 3,
{
    let x = modify_spec(old, 3u32 << s, v << s);
    assert((x >> s) & 3 == v) by (bit_vector)
        requires s <= 30, v <= 3, x == (old & !(3u32 << s)) | ((v << s) & (3u32 << s));
    assert(s != t ==> (x >> t) & 3 == (old >> t) & 3) by (bit_vector)
        requires
            s <= 30,
            t <= 30,
            s % 2 == 0,
            t % 2 == 0,
            v <= 3,
            x == (old & !(3u32 << s)) | ((v << s) & (3u32 << s));
}

/// A four-bit field write at bit `s` sets that field to `v` and keeps every other
/// four-bit field.
pub proof fn lemma_nibble_write(old: u32, s: u32, t: u32, v: u32)
    requires
        s <= 28,
        t <= 28,
        s % 4 == 0,
        t % 4 == 0,
        v <= 15,
    ensures
        (modify_spec(old, 0xFu32 << s, v << s) >> s) & 0xF == v,
        s != t ==> (modify_spec(old, 0xFu32 << s, v << s) >> t) & 0xF == (old >> t) & 0xF,
{
    let x = modify_spec(old, 0xFu32 << s, v << s);
    assert((x >> s) & 0xF == v) by (bit_vector)
        requires s <= 28, v <= 15, x == (old & !(0xFu32 << s)) | ((v << s) & (0xFu32 << s));
    assert(s != t ==> (x >> t) & 0xF == (old >> t) & 0xF) by (bit_vector)
        requires
            s <= 28,
            t <= 28,
            s % 4 == 0,
            t % 4 == 0,
            v <= 15,
            x == (old & !(0xFu32 << s)) | ((v << s) & (0xFu32 << s));
}

/// Read-modify-write of register `base + offset`: the bits under `mask` take the
/// value of `value`'s bits, the others keep theirs.
pub fn modify_reg(base: usize, offset: usize, mask: u32, value: u32) -> (r: RegOp)
    requires
        base + offset <= usize::MAX,
    ensures
        r == (RegOp::Modify { addr: (base + offset) as usize, mask, value }),
{
    RegOp::Modify { addr: base + offset, mask, value }
}

/// A read-modify-write changes exactly the bits under its mask.
pub proof fn lemma_modify_bits(old: u32, mask: u32, value: u32, bit: u32)
    requires
        bit < 32,
    ensures
        (mask >> bit) & 1 == 1 ==> (modify_spec(old, mask, value) >> bit) & 1 == (value >> bit) & 1,
        (mask >> bit) & 1 == 0 ==> (modify_spec(old, mask, value) >> bit) & 1 == (old >> bit) & 1,
{
    assert((mask >> bit) & 1 == 1 ==> (((old & !mask) | (value & mask)) >> bit) & 1 == (value >> bit) & 1) by (bit_vector)
        requires bit < 32;
    assert((mask >> bit) & 1 == 0 ==> (((old & !mask) | (value & mask)) >> bit) & 1 == (old >> bit) & 1) by (bit_vector)
        requires bit < 32;
}

} // verus!
