//! Every MCU GPIO pad of the carrier and the board function it is wired to.
use vstd::prelude::*;

use crate::hal::gpio::{Pin, Port};

verus! {

/// Board function of a pad.
#[derive(Clone, Copy, Debug, PartialEq, Eq, Structural)]
pub enum PinRole {
    /// Not hardwired to a board function.
    Free,
    /// On expansion header J2.
    Expansion,
    /// Status LED anode (PE2 to PE5).
    Led,
    /// Used by FMC, QUADSPI, SWD, oscillator, display or console.
    Hardwired,
    /// Not bonded on this package.
    Absent,
}

/// The carrier's wiring (KiCad netlist, with QSPI NCS moved to PG6).
pub open spec fn pad_role(port: Port, n: u8) -> PinRole {
    if n > 15 {
        PinRole::Absent
    } else {
        match port {
            Port::A => if n == 9 || n == 10 || n == 13 || n == 14 {
                PinRole::Hardwired
            } else {
                PinRole::Expansion
            },
            Port::B => if n == 3 {
                PinRole::Hardwired
            } else {
                PinRole::Expansion
            },
            Port::C => if n == 0 || n == 2 || n == 6 || n == 8 {
                PinRole::Hardwired
            } else {
                PinRole::Free
            },
            Port::D => if n == 2 || n == 3 || n == 6 || n == 7 || n == 13 {
                PinRole::Free
            } else {
                PinRole::Hardwired
            },
            Port::E => if 2 <= n <= 5 {
                PinRole::Led
            } else if n == 6 {
                PinRole::Free
            } else {
                PinRole::Hardwired
            },
            Port::F => PinRole::Hardwired,
            Port::G => if n == 7 || 9 <= n <= 14 {
                PinRole::Free
            } else {
                PinRole::Hardwired
            },
            Port::H => if n == 1 {
                PinRole::Free
            } else {
                PinRole::Hardwired
            },
            Port::I => if n == 11 {
                PinRole::Hardwired
            } else {
                PinRole::Free
            },
            Port::J => if 6 <= n <= 11 {
                PinRole::Free
            } else {
                PinRole::Absent
            },
            Port::K => if n <= 2 {
                PinRole::Free
            } else {
                PinRole::Absent
            },
        }
    }
}

/// Board function of pad `num` of `port`.
pub fn role(port: Port, num: u8) -> (r: PinRole)
    ensures
        r == pad_role(port, num),
{
    if num > 15 {
        return PinRole::Absent;
    }
    match port {
        Port::A => role_a(num),
        Port::B => role_b(num),
        Port::C => role_c(num),
        Port::D => role_d(num),
        Port::E => role_e(num),
        Port::F => role_f(num),
        Port::G => role_g(num),
        Port::H => role_h(num),
        Port::I => role_i(num),
        Port::J => role_j(num),
        Port::K => role_k(num),
    }
}

/// The pad is hardwired or absent.
pub open spec fn restricted_role(r: PinRole) -> bool {
    r == PinRole::Hardwired || r == PinRole::Absent
}

/// `true` if the pad is hardwired or absent (claiming it needs the unchecked path).
pub fn is_restricted(port: Port, num: u8) -> (r: bool)
    ensures
        r == restricted_role(pad_role(port, num)),
{
    match role(port, num) {
        PinRole::Free | PinRole::Expansion | PinRole::Led => false,
        PinRole::Hardwired | PinRole::Absent => true,
    }
}

/// LEDs are wired to diodes but are meant to be driven; only pads used by board
/// peripherals (or absent) need the allow flag.
pub fn requires_allow_flag(port: Port, num: u8) -> (r: bool)
    ensures
        r == restricted_role(pad_role(port, num)),
{
    let r = role(port, num);
    r == PinRole::Hardwired || r == PinRole::Absent
}

fn role_a(n: u8) -> (r: PinRole)
    ensures
        r == pad_role(Port::A, n),
{
    match n {
        13 => PinRole::Hardwired,
        14 => PinRole::Hardwired,
        9 | 10 => PinRole::Hardwired,
        0..=8 | 11 | 12 | 15 => PinRole::Expansion,
        _ => PinRole::Absent,
    }
}

fn role_b(n: u8) -> (r: PinRole)
    ensures
        r == pad_role(Port::B, n),
{
    match n {
        3 => PinRole::Hardwired,
        0..=2 | 4..=15 => PinRole::Expansion,
        _ => PinRole::Absent,
    }
}

fn role_c(n: u8) -> (r: PinRole)
    ensures
        r == pad_role(Port::C, n),
{
    match n {
        0 => PinRole::Hardwired,
        2 => PinRole::Hardwired,
        6 => PinRole::Hardwired,
        8 => PinRole::Hardwired,
        1 | 3 | 4 | 5 | 7 | 9 | 10 | 11 | 12 | 13 | 14 | 15 => PinRole::Free,
        _ => PinRole::Absent,
    }
}

fn role_d(n: u8) -> (r: PinRole)
    ensures
        r == pad_role(Port::D, n),
{
    match n {
        0 | 1 | 4 | 5 | 8 | 9 | 10 | 11 | 12 | 14 | 15 => PinRole::Hardwired,
        2 | 3 | 6 | 7 | 13 => PinRole::Free,
        _ => PinRole::Absent,
    }
}

fn role_e(n: u8) -> (r: PinRole)
    ensures
        r == pad_role(Port::E, n),
{
    match n {
        0 | 1 => PinRole::Hardwired,
        2 | 3 | 4 | 5 => PinRole::Led,
        6 => PinRole::Free,
        7..=15 => PinRole::Hardwired,
        _ => PinRole::Absent,
    }
}

fn role_f(n: u8) -> (r: PinRole)
    ensures
        r == pad_role(Port::F, n),
{
    match n {
        0..=15 => PinRole::Hardwired,
        _ => PinRole::Absent,
    }
}

fn role_g(n: u8) -> (r: PinRole)
    ensures
        r == pad_role(Port::G, n),
{
    match n {
        0 | 1 | 2 | 3 | 4 | 5 | 8 | 15 => PinRole::Hardwired,
        6 => PinRole::Hardwired,
        7 | 9 | 10 | 11 | 12 | 13 | 14 => PinRole::Free,
        _ => PinRole::Absent,
    }
}

fn role_h(n: u8) -> (r: PinRole)
    ensures
        r == pad_role(Port::H, n),
{
    match n {
        0 => PinRole::Hardwired,
        7 => PinRole::Hardwired,
        1 => PinRole::Free,
        2..=6 | 8..=15 => PinRole::Hardwired,
        _ => PinRole::Absent,
    }
}

fn role_i(n: u8) -> (r: PinRole)
    ensures
        r == pad_role(Port::I, n),
{
    match n {
        11 => PinRole::Hardwired,
        0..=10 | 12..=15 => PinRole::Free,
        _ => PinRole::Absent,
    }
}

fn role_j(n: u8) -> (r: PinRole)
    ensures
        r == pad_role(Port::J, n),
{
    match n {
        6..=11 => PinRole::Free,
        0..=5 | 12..=15 => PinRole::Absent,
        _ => PinRole::Absent,
    }
}

fn role_k(n: u8) -> (r: PinRole)
    ensures
        r == pad_role(Port::K, n),
{
    match n {
        0..=2 => PinRole::Free,
        _ => PinRole::Absent,
    }
}

// Every pad of the package, by name: `Pin<false>` pads can be claimed freely,
// `Pin<true>` pads are hardwired to a board function.

/// Expansion J2.
#[allow(non_snake_case)]
pub fn PA0() -> (r: Pin<false>)
    ensures
        r.port == Port::A && r.num == 0,
        r.restricted() == (pad_role(Port::A, 0) == PinRole::Hardwired),
        r.restricted() == restricted_role(pad_role(Port::A, 0)),
{
    Pin::new(Port::A, 0)
}

/// Expansion J2.
#[allow(non_snake_case)]
pub fn PA1() -> (r: Pin<false>)
    ensures
        r.port == Port::A && r.num == 1,
        r.restricted() == (pad_role(Port::A, 1) == PinRole::Hardwired),
        r.restricted() == restricted_role(pad_role(Port::A, 1)),
{
    Pin::new(Port::A, 1)
}

/// Expansion J2.
#[allow(non_snake_case)]
pub fn PA2() -> (r: Pin<false>)
    ensures
        r.port == Port::A && r.num == 2,
        r.restricted() == (pad_role(Port::A, 2) == PinRole::Hardwired),
        r.restricted() == restricted_role(pad_role(Port::A, 2)),
{
    Pin::new(Port::A, 2)
}

/// Expansion J2.
#[allow(non_snake_case)]
pub fn PA3() -> (r: Pin<false>)
    ensures
        r.port == Port::A && r.num == 3,
        r.restricted() == (pad_role(Port::A, 3) == PinRole::Hardwired),
        r.restricted() == restricted_role(pad_role(Port::A, 3)),
{
    Pin::new(Port::A, 3)
}

/// Expansion J2.
#[allow(non_snake_case)]
pub fn PA4() -> (r: Pin<false>)
    ensures
        r.port == Port::A && r.num == 4,
        r.restricted() == (pad_role(Port::A, 4) == PinRole::Hardwired),
        r.restricted() == restricted_role(pad_role(Port::A, 4)),
{
    Pin::new(Port::A, 4)
}

/// Expansion J2.
#[allow(non_snake_case)]
pub fn PA5() -> (r: Pin<false>)
    ensures
        r.port == Port::A && r.num == 5,
        r.restricted() == (pad_role(Port::A, 5) == PinRole::Hardwired),
        r.restricted() == restricted_role(pad_role(Port::A, 5)),
{
    Pin::new(Port::A, 5)
}

/// Expansion J2.
#[allow(non_snake_case)]
pub fn PA6() -> (r: Pin<false>)
    ensures
        r.port == Port::A && r.num == 6,
        r.restricted() == (pad_role(Port::A, 6) == PinRole::Hardwired),
        r.restricted() == restricted_role(pad_role(Port::A, 6)),
{
    Pin::new(Port::A, 6)
}

/// Expansion J2.
#[allow(non_snake_case)]
pub fn PA7() -> (r: Pin<false>)
    ensures
        r.port == Port::A && r.num == 7,
        r.restricted() == (pad_role(Port::A, 7) == PinRole::Hardwired),
        r.restricted() == restricted_role(pad_role(Port::A, 7)),
{
    Pin::new(Port::A, 7)
}

/// Expansion J2.
#[allow(non_snake_case)]
pub fn PA8() -> (r: Pin<false>)
    ensures
        r.port == Port::A && r.num == 8,
        r.restricted() == (pad_role(Port::A, 8) == PinRole::Hardwired),
        r.restricted() == restricted_role(pad_role(Port::A, 8)),
{
    Pin::new(Port::A, 8)
}

/// Expansion J2.
#[allow(non_snake_case)]
pub fn PA11() -> (r: Pin<false>)
    ensures
        r.port == Port::A && r.num == 11,
        r.restricted() == (pad_role(Port::A, 11) == PinRole::Hardwired),
        r.restricted() == restricted_role(pad_role(Port::A, 11)),
{
    Pin::new(Port::A, 11)
}

/// Expansion J2.
#[allow(non_snake_case)]
pub fn PA12() -> (r: Pin<false>)
    ensures
        r.port == Port::A && r.num == 12,
        r.restricted() == (pad_role(Port::A, 12) == PinRole::Hardwired),
        r.restricted() == restricted_role(pad_role(Port::A, 12)),
{
    Pin::new(Port::A, 12)
}

/// Expansion J2.
#[allow(non_snake_case)]
pub fn PA15() -> (r: Pin<false>)
    ensures
        r.port == Port::A && r.num == 15,
        r.restricted() == (pad_role(Port::A, 15) == PinRole::Hardwired),
        r.restricted() == restricted_role(pad_role(Port::A, 15)),
{
    Pin::new(Port::A, 15)
}

/// **Hardwired:** USART1_TX (console).
#[allow(non_snake_case)]
pub fn PA9() -> (r: Pin<true>)
    ensures
        r.port == Port::A && r.num == 9,
        r.restricted() == (pad_role(Port::A, 9) == PinRole::Hardwired),
        r.restricted() == restricted_role(pad_role(Port::A, 9)),
{
    Pin::new(Port::A, 9)
}

/// **Hardwired:** USART1_RX (console).
#[allow(non_snake_case)]
pub fn PA10() -> (r: Pin<true>)
    ensures
        r.port == Port::A && r.num == 10,
        r.restricted() == (pad_role(Port::A, 10) == PinRole::Hardwired),
        r.restricted() == restricted_role(pad_role(Port::A, 10)),
{
    Pin::new(Port::A, 10)
}

/// **Hardwired:** SWDIO (debug).
#[allow(non_snake_case)]
pub fn PA13() -> (r: Pin<true>)
    ensures
        r.port == Port::A && r.num == 13,
        r.restricted() == (pad_role(Port::A, 13) == PinRole::Hardwired),
        r.restricted() == restricted_role(pad_role(Port::A, 13)),
{
    Pin::new(Port::A, 13)
}

/// **Hardwired:** SWCLK (debug).
#[allow(non_snake_case)]
pub fn PA14() -> (r: Pin<true>)
    ensures
        r.port == Port::A && r.num == 14,
        r.restricted() == (pad_role(Port::A, 14) == PinRole::Hardwired),
        r.restricted() == restricted_role(pad_role(Port::A, 14)),
{
    Pin::new(Port::A, 14)
}

/// Expansion J2.
#[allow(non_snake_case)]
pub fn PB0() -> (r: Pin<false>)
    ensures
        r.port == Port::B && r.num == 0,
        r.restricted() == (pad_role(Port::B, 0) == PinRole::Hardwired),
        r.restricted() == restricted_role(pad_role(Port::B, 0)),
{
    Pin::new(Port::B, 0)
}

/// Expansion J2.
#[allow(non_snake_case)]
pub fn PB1() -> (r: Pin<false>)
    ensures
        r.port == Port::B && r.num == 1,
        r.restricted() == (pad_role(Port::B, 1) == PinRole::Hardwired),
        r.restricted() == restricted_role(pad_role(Port::B, 1)),
{
    Pin::new(Port::B, 1)
}

/// Expansion J2.
#[allow(non_snake_case)]
pub fn PB2() -> (r: Pin<false>)
    ensures
        r.port == Port::B && r.num == 2,
        r.restricted() == (pad_role(Port::B, 2) == PinRole::Hardwired),
        r.restricted() == restricted_role(pad_role(Port::B, 2)),
{
    Pin::new(Port::B, 2)
}

/// Expansion J2.
#[allow(non_snake_case)]
pub fn PB4() -> (r: Pin<false>)
    ensures
        r.port == Port::B && r.num == 4,
        r.restricted() == (pad_role(Port::B, 4) == PinRole::Hardwired),
        r.restricted() == restricted_role(pad_role(Port::B, 4)),
{
    Pin::new(Port::B, 4)
}

/// Expansion J2.
#[allow(non_snake_case)]
pub fn PB5() -> (r: Pin<false>)
    ensures
        r.port == Port::B && r.num == 5,
        r.restricted() == (pad_role(Port::B, 5) == PinRole::Hardwired),
        r.restricted() == restricted_role(pad_role(Port::B, 5)),
{
    Pin::new(Port::B, 5)
}

/// Expansion J2.
#[allow(non_snake_case)]
pub fn PB6() -> (r: Pin<false>)
    ensures
        r.port == Port::B && r.num == 6,
        r.restricted() == (pad_role(Port::B, 6) == PinRole::Hardwired),
        r.restricted() == restricted_role(pad_role(Port::B, 6)),
{
    Pin::new(Port::B, 6)
}

/// Expansion J2.
#[allow(non_snake_case)]
pub fn PB7() -> (r: Pin<false>)
    ensures
        r.port == Port::B && r.num == 7,
        r.restricted() == (pad_role(Port::B, 7) == PinRole::Hardwired),
        r.restricted() == restricted_role(pad_role(Port::B, 7)),
{
    Pin::new(Port::B, 7)
}

/// Expansion J2.
#[allow(non_snake_case)]
pub fn PB8() -> (r: Pin<false>)
    ensures
        r.port == Port::B && r.num == 8,
        r.restricted() == (pad_role(Port::B, 8) == PinRole::Hardwired),
        r.restricted() == restricted_role(pad_role(Port::B, 8)),
{
    Pin::new(Port::B, 8)
}

/// Expansion J2.
#[allow(non_snake_case)]
pub fn PB9() -> (r: Pin<false>)
    ensures
        r.port == Port::B && r.num == 9,
        r.restricted() == (pad_role(Port::B, 9) == PinRole::Hardwired),
        r.restricted() == restricted_role(pad_role(Port::B, 9)),
{
    Pin::new(Port::B, 9)
}

/// Expansion J2.
#[allow(non_snake_case)]
pub fn PB10() -> (r: Pin<false>)
    ensures
        r.port == Port::B && r.num == 10,
        r.restricted() == (pad_role(Port::B, 10) == PinRole::Hardwired),
        r.restricted() == restricted_role(pad_role(Port::B, 10)),
{
    Pin::new(Port::B, 10)
}

/// Expansion J2.
#[allow(non_snake_case)]
pub fn PB11() -> (r: Pin<false>)
    ensures
        r.port == Port::B && r.num == 11,
        r.restricted() == (pad_role(Port::B, 11) == PinRole::Hardwired),
        r.restricted() == restricted_role(pad_role(Port::B, 11)),
{
    Pin::new(Port::B, 11)
}

/// Expansion J2.
#[allow(non_snake_case)]
pub fn PB12() -> (r: Pin<false>)
    ensures
        r.port == Port::B && r.num == 12,
        r.restricted() == (pad_role(Port::B, 12) == PinRole::Hardwired),
        r.restricted() == restricted_role(pad_role(Port::B, 12)),
{
    Pin::new(Port::B, 12)
}

/// Expansion J2.
#[allow(non_snake_case)]
pub fn PB13() -> (r: Pin<false>)
    ensures
        r.port == Port::B && r.num == 13,
        r.restricted() == (pad_role(Port::B, 13) == PinRole::Hardwired),
        r.restricted() == restricted_role(pad_role(Port::B, 13)),
{
    Pin::new(Port::B, 13)
}

/// Expansion J2.
#[allow(non_snake_case)]
pub fn PB14() -> (r: Pin<false>)
    ensures
        r.port == Port::B && r.num == 14,
        r.restricted() == (pad_role(Port::B, 14) == PinRole::Hardwired),
        r.restricted() == restricted_role(pad_role(Port::B, 14)),
{
    Pin::new(Port::B, 14)
}

/// Expansion J2.
#[allow(non_snake_case)]
pub fn PB15() -> (r: Pin<false>)
    ensures
        r.port == Port::B && r.num == 15,
        r.restricted() == (pad_role(Port::B, 15) == PinRole::Hardwired),
        r.restricted() == restricted_role(pad_role(Port::B, 15)),
{
    Pin::new(Port::B, 15)
}

/// **Hardwired:** SWO (trace).
#[allow(non_snake_case)]
pub fn PB3() -> (r: Pin<true>)
    ensures
        r.port == Port::B && r.num == 3,
        r.restricted() == (pad_role(Port::B, 3) == PinRole::Hardwired),
        r.restricted() == restricted_role(pad_role(Port::B, 3)),
{
    Pin::new(Port::B, 3)
}

/// Pad PC1.
#[allow(non_snake_case)]
pub fn PC1() -> (r: Pin<false>)
    ensures
        r.port == Port::C && r.num == 1,
        r.restricted() == (pad_role(Port::C, 1) == PinRole::Hardwired),
        r.restricted() == restricted_role(pad_role(Port::C, 1)),
{
    Pin::new(Port::C, 1)
}

/// Pad PC3.
#[allow(non_snake_case)]
pub fn PC3() -> (r: Pin<false>)
    ensures
        r.port == Port::C && r.num == 3,
        r.restricted() == (pad_role(Port::C, 3) == PinRole::Hardwired),
        r.restricted() == restricted_role(pad_role(Port::C, 3)),
{
    Pin::new(Port::C, 3)
}

/// Pad PC4.
#[allow(non_snake_case)]
pub fn PC4() -> (r: Pin<false>)
    ensures
        r.port == Port::C && r.num == 4,
        r.restricted() == (pad_role(Port::C, 4) == PinRole::Hardwired),
        r.restricted() == restricted_role(pad_role(Port::C, 4)),
{
    Pin::new(Port::C, 4)
}

/// Pad PC5.
#[allow(non_snake_case)]
pub fn PC5() -> (r: Pin<false>)
    ensures
        r.port == Port::C && r.num == 5,
        r.restricted() == (pad_role(Port::C, 5) == PinRole::Hardwired),
        r.restricted() == restricted_role(pad_role(Port::C, 5)),
{
    Pin::new(Port::C, 5)
}

/// Pad PC7.
#[allow(non_snake_case)]
pub fn PC7() -> (r: Pin<false>)
    ensures
        r.port == Port::C && r.num == 7,
        r.restricted() == (pad_role(Port::C, 7) == PinRole::Hardwired),
        r.restricted() == restricted_role(pad_role(Port::C, 7)),
{
    Pin::new(Port::C, 7)
}

/// Pad PC9.
#[allow(non_snake_case)]
pub fn PC9() -> (r: Pin<false>)
    ensures
        r.port == Port::C && r.num == 9,
        r.restricted() == (pad_role(Port::C, 9) == PinRole::Hardwired),
        r.restricted() == restricted_role(pad_role(Port::C, 9)),
{
    Pin::new(Port::C, 9)
}

/// Pad PC10.
#[allow(non_snake_case)]
pub fn PC10() -> (r: Pin<false>)
    ensures
        r.port == Port::C && r.num == 10,
        r.restricted() == (pad_role(Port::C, 10) == PinRole::Hardwired),
        r.restricted() == restricted_role(pad_role(Port::C, 10)),
{
    Pin::new(Port::C, 10)
}

/// Pad PC11.
#[allow(non_snake_case)]
pub fn PC11() -> (r: Pin<false>)
    ensures
        r.port == Port::C && r.num == 11,
        r.restricted() == (pad_role(Port::C, 11) == PinRole::Hardwired),
        r.restricted() == restricted_role(pad_role(Port::C, 11)),
{
    Pin::new(Port::C, 11)
}

/// Pad PC12.
#[allow(non_snake_case)]
pub fn PC12() -> (r: Pin<false>)
    ensures
        r.port == Port::C && r.num == 12,
        r.restricted() == (pad_role(Port::C, 12) == PinRole::Hardwired),
        r.restricted() == restricted_role(pad_role(Port::C, 12)),
{
    Pin::new(Port::C, 12)
}

/// Pad PC13.
#[allow(non_snake_case)]
pub fn PC13() -> (r: Pin<false>)
    ensures
        r.port == Port::C && r.num == 13,
        r.restricted() == (pad_role(Port::C, 13) == PinRole::Hardwired),
        r.restricted() == restricted_role(pad_role(Port::C, 13)),
{
    Pin::new(Port::C, 13)
}

/// Pad PC14.
#[allow(non_snake_case)]
pub fn PC14() -> (r: Pin<false>)
    ensures
        r.port == Port::C && r.num == 14,
        r.restricted() == (pad_role(Port::C, 14) == PinRole::Hardwired),
        r.restricted() == restricted_role(pad_role(Port::C, 14)),
{
    Pin::new(Port::C, 14)
}

/// Pad PC15.
#[allow(non_snake_case)]
pub fn PC15() -> (r: Pin<false>)
    ensures
        r.port == Port::C && r.num == 15,
        r.restricted() == (pad_role(Port::C, 15) == PinRole::Hardwired),
        r.restricted() == restricted_role(pad_role(Port::C, 15)),
{
    Pin::new(Port::C, 15)
}

/// **Hardwired:** FMC_WE (SDRAM).
#[allow(non_snake_case)]
pub fn PC0() -> (r: Pin<true>)
    ensures
        r.port == Port::C && r.num == 0,
        r.restricted() == (pad_role(Port::C, 0) == PinRole::Hardwired),
        r.restricted() == restricted_role(pad_role(Port::C, 0)),
{
    Pin::new(Port::C, 0)
}

/// **Hardwired:** FMC_SDNE0 / CS (SDRAM).
#[allow(non_snake_case)]
pub fn PC2() -> (r: Pin<true>)
    ensures
        r.port == Port::C && r.num == 2,
        r.restricted() == (pad_role(Port::C, 2) == PinRole::Hardwired),
        r.restricted() == restricted_role(pad_role(Port::C, 2)),
{
    Pin::new(Port::C, 2)
}

/// **Hardwired:** FMC_NWAIT (NAND).
#[allow(non_snake_case)]
pub fn PC6() -> (r: Pin<true>)
    ensures
        r.port == Port::C && r.num == 6,
        r.restricted() == (pad_role(Port::C, 6) == PinRole::Hardwired),
        r.restricted() == restricted_role(pad_role(Port::C, 6)),
{
    Pin::new(Port::C, 6)
}

/// **Hardwired:** FMC_NCE (NAND).
#[allow(non_snake_case)]
pub fn PC8() -> (r: Pin<true>)
    ensures
        r.port == Port::C && r.num == 8,
        r.restricted() == (pad_role(Port::C, 8) == PinRole::Hardwired),
        r.restricted() == restricted_role(pad_role(Port::C, 8)),
{
    Pin::new(Port::C, 8)
}

/// Pad PD2.
#[allow(non_snake_case)]
pub fn PD2() -> (r: Pin<false>)
    ensures
        r.port == Port::D && r.num == 2,
        r.restricted() == (pad_role(Port::D, 2) == PinRole::Hardwired),
        r.restricted() == restricted_role(pad_role(Port::D, 2)),
{
    Pin::new(Port::D, 2)
}

/// Pad PD3.
#[allow(non_snake_case)]
pub fn PD3() -> (r: Pin<false>)
    ensures
        r.port == Port::D && r.num == 3,
        r.restricted() == (pad_role(Port::D, 3) == PinRole::Hardwired),
        r.restricted() == restricted_role(pad_role(Port::D, 3)),
{
    Pin::new(Port::D, 3)
}

/// Pad PD6.
#[allow(non_snake_case)]
pub fn PD6() -> (r: Pin<false>)
    ensures
        r.port == Port::D && r.num == 6,
        r.restricted() == (pad_role(Port::D, 6) == PinRole::Hardwired),
        r.restricted() == restricted_role(pad_role(Port::D, 6)),
{
    Pin::new(Port::D, 6)
}

/// Pad PD7.
#[allow(non_snake_case)]
pub fn PD7() -> (r: Pin<false>)
    ensures
        r.port == Port::D && r.num == 7,
        r.restricted() == (pad_role(Port::D, 7) == PinRole::Hardwired),
        r.restricted() == restricted_role(pad_role(Port::D, 7)),
{
    Pin::new(Port::D, 7)
}

/// Pad PD13.
#[allow(non_snake_case)]
pub fn PD13() -> (r: Pin<false>)
    ensures
        r.port == Port::D && r.num == 13,
        r.restricted() == (pad_role(Port::D, 13) == PinRole::Hardwired),
        r.restricted() == restricted_role(pad_role(Port::D, 13)),
{
    Pin::new(Port::D, 13)
}

/// **Hardwired:** FMC_D2.
#[allow(non_snake_case)]
pub fn PD0() -> (r: Pin<true>)
    ensures
        r.port == Port::D && r.num == 0,
        r.restricted() == (pad_role(Port::D, 0) == PinRole::Hardwired),
        r.restricted() == restricted_role(pad_role(Port::D, 0)),
{
    Pin::new(Port::D, 0)
}

/// **Hardwired:** FMC_D3.
#[allow(non_snake_case)]
pub fn PD1() -> (r: Pin<true>)
    ensures
        r.port == Port::D && r.num == 1,
        r.restricted() == (pad_role(Port::D, 1) == PinRole::Hardwired),
        r.restricted() == restricted_role(pad_role(Port::D, 1)),
{
    Pin::new(Port::D, 1)
}

/// **Hardwired:** FMC_NOE (NAND).
#[allow(non_snake_case)]
pub fn PD4() -> (r: Pin<true>)
    ensures
        r.port == Port::D && r.num == 4,
        r.restricted() == (pad_role(Port::D, 4) == PinRole::Hardwired),
        r.restricted() == restricted_role(pad_role(Port::D, 4)),
{
    Pin::new(Port::D, 4)
}

/// **Hardwired:** FMC_NWE (NAND).
#[allow(non_snake_case)]
pub fn PD5() -> (r: Pin<true>)
    ensures
        r.port == Port::D && r.num == 5,
        r.restricted() == (pad_role(Port::D, 5) == PinRole::Hardwired),
        r.restricted() == restricted_role(pad_role(Port::D, 5)),
{
    Pin::new(Port::D, 5)
}

/// **Hardwired:** FMC_D13.
#[allow(non_snake_case)]
pub fn PD8() -> (r: Pin<true>)
    ensures
        r.port == Port::D && r.num == 8,
        r.restricted() == (pad_role(Port::D, 8) == PinRole::Hardwired),
        r.restricted() == restricted_role(pad_role(Port::D, 8)),
{
    Pin::new(Port::D, 8)
}

/// **Hardwired:** FMC_D14.
#[allow(non_snake_case)]
pub fn PD9() -> (r: Pin<true>)
    ensures
        r.port == Port::D && r.num == 9,
        r.restricted() == (pad_role(Port::D, 9) == PinRole::Hardwired),
        r.restricted() == restricted_role(pad_role(Port::D, 9)),
{
    Pin::new(Port::D, 9)
}

/// **Hardwired:** FMC_D15.
#[allow(non_snake_case)]
pub fn PD10() -> (r: Pin<true>)
    ensures
        r.port == Port::D && r.num == 10,
        r.restricted() == (pad_role(Port::D, 10) == PinRole::Hardwired),
        r.restricted() == restricted_role(pad_role(Port::D, 10)),
{
    Pin::new(Port::D, 10)
}

/// **Hardwired:** FMC_CLE (NAND).
#[allow(non_snake_case)]
pub fn PD11() -> (r: Pin<true>)
    ensures
        r.port == Port::D && r.num == 11,
        r.restricted() == (pad_role(Port::D, 11) == PinRole::Hardwired),
        r.restricted() == restricted_role(pad_role(Port::D, 11)),
{
    Pin::new(Port::D, 11)
}

/// **Hardwired:** FMC_ALE (NAND).
#[allow(non_snake_case)]
pub fn PD12() -> (r: Pin<true>)
    ensures
        r.port == Port::D && r.num == 12,
        r.restricted() == (pad_role(Port::D, 12) == PinRole::Hardwired),
        r.restricted() == restricted_role(pad_role(Port::D, 12)),
{
    Pin::new(Port::D, 12)
}

/// **Hardwired:** FMC_D0.
#[allow(non_snake_case)]
pub fn PD14() -> (r: Pin<true>)
    ensures
        r.port == Port::D && r.num == 14,
        r.restricted() == (pad_role(Port::D, 14) == PinRole::Hardwired),
        r.restricted() == restricted_role(pad_role(Port::D, 14)),
{
    Pin::new(Port::D, 14)
}

/// **Hardwired:** FMC_D1.
#[allow(non_snake_case)]
pub fn PD15() -> (r: Pin<true>)
    ensures
        r.port == Port::D && r.num == 15,
        r.restricted() == (pad_role(Port::D, 15) == PinRole::Hardwired),
        r.restricted() == restricted_role(pad_role(Port::D, 15)),
{
    Pin::new(Port::D, 15)
}

/// Status LED **RUN** (D4 anode). Prefer `hal::led`.
#[allow(non_snake_case)]
pub fn PE2() -> (r: Pin<false>)
    ensures
        r.port == Port::E && r.num == 2,
        r.restricted() == (pad_role(Port::E, 2) == PinRole::Hardwired),
        r.restricted() == restricted_role(pad_role(Port::E, 2)),
{
    Pin::new(Port::E, 2)
}

/// Status LED **DBG** (D5 anode). Prefer `hal::led`.
#[allow(non_snake_case)]
pub fn PE3() -> (r: Pin<false>)
    ensures
        r.port == Port::E && r.num == 3,
        r.restricted() == (pad_role(Port::E, 3) == PinRole::Hardwired),
        r.restricted() == restricted_role(pad_role(Port::E, 3)),
{
    Pin::new(Port::E, 3)
}

/// Status LED **ERR** (D6 anode). Prefer `hal::led`.
#[allow(non_snake_case)]
pub fn PE4() -> (r: Pin<false>)
    ensures
        r.port == Port::E && r.num == 4,
        r.restricted() == (pad_role(Port::E, 4) == PinRole::Hardwired),
        r.restricted() == restricted_role(pad_role(Port::E, 4)),
{
    Pin::new(Port::E, 4)
}

/// Status LED **PNC** (D7 anode). Prefer `hal::led`.
#[allow(non_snake_case)]
pub fn PE5() -> (r: Pin<false>)
    ensures
        r.port == Port::E && r.num == 5,
        r.restricted() == (pad_role(Port::E, 5) == PinRole::Hardwired),
        r.restricted() == restricted_role(pad_role(Port::E, 5)),
{
    Pin::new(Port::E, 5)
}

/// NC / free.
#[allow(non_snake_case)]
pub fn PE6() -> (r: Pin<false>)
    ensures
        r.port == Port::E && r.num == 6,
        r.restricted() == (pad_role(Port::E, 6) == PinRole::Hardwired),
        r.restricted() == restricted_role(pad_role(Port::E, 6)),
{
    Pin::new(Port::E, 6)
}

/// **Hardwired:** FMC_NBL0.
#[allow(non_snake_case)]
pub fn PE0() -> (r: Pin<true>)
    ensures
        r.port == Port::E && r.num == 0,
        r.restricted() == (pad_role(Port::E, 0) == PinRole::Hardwired),
        r.restricted() == restricted_role(pad_role(Port::E, 0)),
{
    Pin::new(Port::E, 0)
}

/// **Hardwired:** FMC_NBL1.
#[allow(non_snake_case)]
pub fn PE1() -> (r: Pin<true>)
    ensures
        r.port == Port::E && r.num == 1,
        r.restricted() == (pad_role(Port::E, 1) == PinRole::Hardwired),
        r.restricted() == restricted_role(pad_role(Port::E, 1)),
{
    Pin::new(Port::E, 1)
}

/// **Hardwired:** FMC_D4.
#[allow(non_snake_case)]
pub fn PE7() -> (r: Pin<true>)
    ensures
        r.port == Port::E && r.num == 7,
        r.restricted() == (pad_role(Port::E, 7) == PinRole::Hardwired),
        r.restricted() == restricted_role(pad_role(Port::E, 7)),
{
    Pin::new(Port::E, 7)
}

/// **Hardwired:** FMC_D5.
#[allow(non_snake_case)]
pub fn PE8() -> (r: Pin<true>)
    ensures
        r.port == Port::E && r.num == 8,
        r.restricted() == (pad_role(Port::E, 8) == PinRole::Hardwired),
        r.restricted() == restricted_role(pad_role(Port::E, 8)),
{
    Pin::new(Port::E, 8)
}

/// **Hardwired:** FMC_D6.
#[allow(non_snake_case)]
pub fn PE9() -> (r: Pin<true>)
    ensures
        r.port == Port::E && r.num == 9,
        r.restricted() == (pad_role(Port::E, 9) == PinRole::Hardwired),
        r.restricted() == restricted_role(pad_role(Port::E, 9)),
{
    Pin::new(Port::E, 9)
}

/// **Hardwired:** FMC_D7.
#[allow(non_snake_case)]
pub fn PE10() -> (r: Pin<true>)
    ensures
        r.port == Port::E && r.num == 10,
        r.restricted() == (pad_role(Port::E, 10) == PinRole::Hardwired),
        r.restricted() == restricted_role(pad_role(Port::E, 10)),
{
    Pin::new(Port::E, 10)
}

/// **Hardwired:** FMC_D8.
#[allow(non_snake_case)]
pub fn PE11() -> (r: Pin<true>)
    ensures
        r.port == Port::E && r.num == 11,
        r.restricted() == (pad_role(Port::E, 11) == PinRole::Hardwired),
        r.restricted() == restricted_role(pad_role(Port::E, 11)),
{
    Pin::new(Port::E, 11)
}

/// **Hardwired:** FMC_D9.
#[allow(non_snake_case)]
pub fn PE12() -> (r: Pin<true>)
    ensures
        r.port == Port::E && r.num == 12,
        r.restricted() == (pad_role(Port::E, 12) == PinRole::Hardwired),
        r.restricted() == restricted_role(pad_role(Port::E, 12)),
{
    Pin::new(Port::E, 12)
}

/// **Hardwired:** FMC_D10.
#[allow(non_snake_case)]
pub fn PE13() -> (r: Pin<true>)
    ensures
        r.port == Port::E && r.num == 13,
        r.restricted() == (pad_role(Port::E, 13) == PinRole::Hardwired),
        r.restricted() == restricted_role(pad_role(Port::E, 13)),
{
    Pin::new(Port::E, 13)
}

/// **Hardwired:** FMC_D11.
#[allow(non_snake_case)]
pub fn PE14() -> (r: Pin<true>)
    ensures
        r.port == Port::E && r.num == 14,
        r.restricted() == (pad_role(Port::E, 14) == PinRole::Hardwired),
        r.restricted() == restricted_role(pad_role(Port::E, 14)),
{
    Pin::new(Port::E, 14)
}

/// **Hardwired:** FMC_D12.
#[allow(non_snake_case)]
pub fn PE15() -> (r: Pin<true>)
    ensures
        r.port == Port::E && r.num == 15,
        r.restricted() == (pad_role(Port::E, 15) == PinRole::Hardwired),
        r.restricted() == restricted_role(pad_role(Port::E, 15)),
{
    Pin::new(Port::E, 15)
}

/// **Hardwired:** FMC_A0.
#[allow(non_snake_case)]
pub fn PF0() -> (r: Pin<true>)
    ensures
        r.port == Port::F && r.num == 0,
        r.restricted() == (pad_role(Port::F, 0) == PinRole::Hardwired),
        r.restricted() == restricted_role(pad_role(Port::F, 0)),
{
    Pin::new(Port::F, 0)
}

/// **Hardwired:** FMC_A1.
#[allow(non_snake_case)]
pub fn PF1() -> (r: Pin<true>)
    ensures
        r.port == Port::F && r.num == 1,
        r.restricted() == (pad_role(Port::F, 1) == PinRole::Hardwired),
        r.restricted() == restricted_role(pad_role(Port::F, 1)),
{
    Pin::new(Port::F, 1)
}

/// **Hardwired:** FMC_A2.
#[allow(non_snake_case)]
pub fn PF2() -> (r: Pin<true>)
    ensures
        r.port == Port::F && r.num == 2,
        r.restricted() == (pad_role(Port::F, 2) == PinRole::Hardwired),
        r.restricted() == restricted_role(pad_role(Port::F, 2)),
{
    Pin::new(Port::F, 2)
}

/// **Hardwired:** FMC_A3.
#[allow(non_snake_case)]
pub fn PF3() -> (r: Pin<true>)
    ensures
        r.port == Port::F && r.num == 3,
        r.restricted() == (pad_role(Port::F, 3) == PinRole::Hardwired),
        r.restricted() == restricted_role(pad_role(Port::F, 3)),
{
    Pin::new(Port::F, 3)
}

/// **Hardwired:** FMC_A4.
#[allow(non_snake_case)]
pub fn PF4() -> (r: Pin<true>)
    ensures
        r.port == Port::F && r.num == 4,
        r.restricted() == (pad_role(Port::F, 4) == PinRole::Hardwired),
        r.restricted() == restricted_role(pad_role(Port::F, 4)),
{
    Pin::new(Port::F, 4)
}

/// **Hardwired:** FMC_A5.
#[allow(non_snake_case)]
pub fn PF5() -> (r: Pin<true>)
    ensures
        r.port == Port::F && r.num == 5,
        r.restricted() == (pad_role(Port::F, 5) == PinRole::Hardwired),
        r.restricted() == restricted_role(pad_role(Port::F, 5)),
{
    Pin::new(Port::F, 5)
}

/// **Hardwired:** QSPI_IO3.
#[allow(non_snake_case)]
pub fn PF6() -> (r: Pin<true>)
    ensures
        r.port == Port::F && r.num == 6,
        r.restricted() == (pad_role(Port::F, 6) == PinRole::Hardwired),
        r.restricted() == restricted_role(pad_role(Port::F, 6)),
{
    Pin::new(Port::F, 6)
}

/// **Hardwired:** QSPI_IO2.
#[allow(non_snake_case)]
pub fn PF7() -> (r: Pin<true>)
    ensures
        r.port == Port::F && r.num == 7,
        r.restricted() == (pad_role(Port::F, 7) == PinRole::Hardwired),
        r.restricted() == restricted_role(pad_role(Port::F, 7)),
{
    Pin::new(Port::F, 7)
}

/// **Hardwired:** QSPI_IO0.
#[allow(non_snake_case)]
pub fn PF8() -> (r: Pin<true>)
    ensures
        r.port == Port::F && r.num == 8,
        r.restricted() == (pad_role(Port::F, 8) == PinRole::Hardwired),
        r.restricted() == restricted_role(pad_role(Port::F, 8)),
{
    Pin::new(Port::F, 8)
}

/// **Hardwired:** QSPI_IO1.
#[allow(non_snake_case)]
pub fn PF9() -> (r: Pin<true>)
    ensures
        r.port == Port::F && r.num == 9,
        r.restricted() == (pad_role(Port::F, 9) == PinRole::Hardwired),
        r.restricted() == restricted_role(pad_role(Port::F, 9)),
{
    Pin::new(Port::F, 9)
}

/// **Hardwired:** QSPI_CLK.
#[allow(non_snake_case)]
pub fn PF10() -> (r: Pin<true>)
    ensures
        r.port == Port::F && r.num == 10,
        r.restricted() == (pad_role(Port::F, 10) == PinRole::Hardwired),
        r.restricted() == restricted_role(pad_role(Port::F, 10)),
{
    Pin::new(Port::F, 10)
}

/// **Hardwired:** FMC_SDNRAS.
#[allow(non_snake_case)]
pub fn PF11() -> (r: Pin<true>)
    ensures
        r.port == Port::F && r.num == 11,
        r.restricted() == (pad_role(Port::F, 11) == PinRole::Hardwired),
        r.restricted() == restricted_role(pad_role(Port::F, 11)),
{
    Pin::new(Port::F, 11)
}

/// **Hardwired:** FMC_A6.
#[allow(non_snake_case)]
pub fn PF12() -> (r: Pin<true>)
    ensures
        r.port == Port::F && r.num == 12,
        r.restricted() == (pad_role(Port::F, 12) == PinRole::Hardwired),
        r.restricted() == restricted_role(pad_role(Port::F, 12)),
{
    Pin::new(Port::F, 12)
}

/// **Hardwired:** FMC_A7.
#[allow(non_snake_case)]
pub fn PF13() -> (r: Pin<true>)
    ensures
        r.port == Port::F && r.num == 13,
        r.restricted() == (pad_role(Port::F, 13) == PinRole::Hardwired),
        r.restricted() == restricted_role(pad_role(Port::F, 13)),
{
    Pin::new(Port::F, 13)
}

/// **Hardwired:** FMC_A8.
#[allow(non_snake_case)]
pub fn PF14() -> (r: Pin<true>)
    ensures
        r.port == Port::F && r.num == 14,
        r.restricted() == (pad_role(Port::F, 14) == PinRole::Hardwired),
        r.restricted() == restricted_role(pad_role(Port::F, 14)),
{
    Pin::new(Port::F, 14)
}

/// **Hardwired:** FMC_A9.
#[allow(non_snake_case)]
pub fn PF15() -> (r: Pin<true>)
    ensures
        r.port == Port::F && r.num == 15,
        r.restricted() == (pad_role(Port::F, 15) == PinRole::Hardwired),
        r.restricted() == restricted_role(pad_role(Port::F, 15)),
{
    Pin::new(Port::F, 15)
}

/// Pad PG7.
#[allow(non_snake_case)]
pub fn PG7() -> (r: Pin<false>)
    ensures
        r.port == Port::G && r.num == 7,
        r.restricted() == (pad_role(Port::G, 7) == PinRole::Hardwired),
        r.restricted() == restricted_role(pad_role(Port::G, 7)),
{
    Pin::new(Port::G, 7)
}

/// Pad PG9.
#[allow(non_snake_case)]
pub fn PG9() -> (r: Pin<false>)
    ensures
        r.port == Port::G && r.num == 9,
        r.restricted() == (pad_role(Port::G, 9) == PinRole::Hardwired),
        r.restricted() == restricted_role(pad_role(Port::G, 9)),
{
    Pin::new(Port::G, 9)
}

/// Pad PG10.
#[allow(non_snake_case)]
pub fn PG10() -> (r: Pin<false>)
    ensures
        r.port == Port::G && r.num == 10,
        r.restricted() == (pad_role(Port::G, 10) == PinRole::Hardwired),
        r.restricted() == restricted_role(pad_role(Port::G, 10)),
{
    Pin::new(Port::G, 10)
}

/// Pad PG11.
#[allow(non_snake_case)]
pub fn PG11() -> (r: Pin<false>)
    ensures
        r.port == Port::G && r.num == 11,
        r.restricted() == (pad_role(Port::G, 11) == PinRole::Hardwired),
        r.restricted() == restricted_role(pad_role(Port::G, 11)),
{
    Pin::new(Port::G, 11)
}

/// Pad PG12.
#[allow(non_snake_case)]
pub fn PG12() -> (r: Pin<false>)
    ensures
        r.port == Port::G && r.num == 12,
        r.restricted() == (pad_role(Port::G, 12) == PinRole::Hardwired),
        r.restricted() == restricted_role(pad_role(Port::G, 12)),
{
    Pin::new(Port::G, 12)
}

/// Pad PG13.
#[allow(non_snake_case)]
pub fn PG13() -> (r: Pin<false>)
    ensures
        r.port == Port::G && r.num == 13,
        r.restricted() == (pad_role(Port::G, 13) == PinRole::Hardwired),
        r.restricted() == restricted_role(pad_role(Port::G, 13)),
{
    Pin::new(Port::G, 13)
}

/// Pad PG14.
#[allow(non_snake_case)]
pub fn PG14() -> (r: Pin<false>)
    ensures
        r.port == Port::G && r.num == 14,
        r.restricted() == (pad_role(Port::G, 14) == PinRole::Hardwired),
        r.restricted() == restricted_role(pad_role(Port::G, 14)),
{
    Pin::new(Port::G, 14)
}

/// **Hardwired:** FMC_A10.
#[allow(non_snake_case)]
pub fn PG0() -> (r: Pin<true>)
    ensures
        r.port == Port::G && r.num == 0,
        r.restricted() == (pad_role(Port::G, 0) == PinRole::Hardwired),
        r.restricted() == restricted_role(pad_role(Port::G, 0)),
{
    Pin::new(Port::G, 0)
}

/// **Hardwired:** FMC_A11.
#[allow(non_snake_case)]
pub fn PG1() -> (r: Pin<true>)
    ensures
        r.port == Port::G && r.num == 1,
        r.restricted() == (pad_role(Port::G, 1) == PinRole::Hardwired),
        r.restricted() == restricted_role(pad_role(Port::G, 1)),
{
    Pin::new(Port::G, 1)
}

/// **Hardwired:** FMC_A12.
#[allow(non_snake_case)]
pub fn PG2() -> (r: Pin<true>)
    ensures
        r.port == Port::G && r.num == 2,
        r.restricted() == (pad_role(Port::G, 2) == PinRole::Hardwired),
        r.restricted() == restricted_role(pad_role(Port::G, 2)),
{
    Pin::new(Port::G, 2)
}

/// **Hardwired:** NAND_WP.
#[allow(non_snake_case)]
pub fn PG3() -> (r: Pin<true>)
    ensures
        r.port == Port::G && r.num == 3,
        r.restricted() == (pad_role(Port::G, 3) == PinRole::Hardwired),
        r.restricted() == restricted_role(pad_role(Port::G, 3)),
{
    Pin::new(Port::G, 3)
}

/// **Hardwired:** FMC_BA0.
#[allow(non_snake_case)]
pub fn PG4() -> (r: Pin<true>)
    ensures
        r.port == Port::G && r.num == 4,
        r.restricted() == (pad_role(Port::G, 4) == PinRole::Hardwired),
        r.restricted() == restricted_role(pad_role(Port::G, 4)),
{
    Pin::new(Port::G, 4)
}

/// **Hardwired:** FMC_BA1.
#[allow(non_snake_case)]
pub fn PG5() -> (r: Pin<true>)
    ensures
        r.port == Port::G && r.num == 5,
        r.restricted() == (pad_role(Port::G, 5) == PinRole::Hardwired),
        r.restricted() == restricted_role(pad_role(Port::G, 5)),
{
    Pin::new(Port::G, 5)
}

/// **Hardwired:** QSPI_NCS (board bodge to PG6).
#[allow(non_snake_case)]
pub fn PG6() -> (r: Pin<true>)
    ensures
        r.port == Port::G && r.num == 6,
        r.restricted() == (pad_role(Port::G, 6) == PinRole::Hardwired),
        r.restricted() == restricted_role(pad_role(Port::G, 6)),
{
    Pin::new(Port::G, 6)
}

/// **Hardwired:** FMC_SDCLK.
#[allow(non_snake_case)]
pub fn PG8() -> (r: Pin<true>)
    ensures
        r.port == Port::G && r.num == 8,
        r.restricted() == (pad_role(Port::G, 8) == PinRole::Hardwired),
        r.restricted() == restricted_role(pad_role(Port::G, 8)),
{
    Pin::new(Port::G, 8)
}

/// **Hardwired:** FMC_SDNCAS.
#[allow(non_snake_case)]
pub fn PG15() -> (r: Pin<true>)
    ensures
        r.port == Port::G && r.num == 15,
        r.restricted() == (pad_role(Port::G, 15) == PinRole::Hardwired),
        r.restricted() == restricted_role(pad_role(Port::G, 15)),
{
    Pin::new(Port::G, 15)
}

/// Pad PH1.
#[allow(non_snake_case)]
pub fn PH1() -> (r: Pin<false>)
    ensures
        r.port == Port::H && r.num == 1,
        r.restricted() == (pad_role(Port::H, 1) == PinRole::Hardwired),
        r.restricted() == restricted_role(pad_role(Port::H, 1)),
{
    Pin::new(Port::H, 1)
}

/// **Hardwired:** HSE OSC_IN.
#[allow(non_snake_case)]
pub fn PH0() -> (r: Pin<true>)
    ensures
        r.port == Port::H && r.num == 0,
        r.restricted() == (pad_role(Port::H, 0) == PinRole::Hardwired),
        r.restricted() == restricted_role(pad_role(Port::H, 0)),
{
    Pin::new(Port::H, 0)
}

/// **Hardwired:** display connector / LTDC candidate.
#[allow(non_snake_case)]
pub fn PH2() -> (r: Pin<true>)
    ensures
        r.port == Port::H && r.num == 2,
        r.restricted() == (pad_role(Port::H, 2) == PinRole::Hardwired),
        r.restricted() == restricted_role(pad_role(Port::H, 2)),
{
    Pin::new(Port::H, 2)
}

/// **Hardwired:** display connector / LTDC candidate.
#[allow(non_snake_case)]
pub fn PH3() -> (r: Pin<true>)
    ensures
        r.port == Port::H && r.num == 3,
        r.restricted() == (pad_role(Port::H, 3) == PinRole::Hardwired),
        r.restricted() == restricted_role(pad_role(Port::H, 3)),
{
    Pin::new(Port::H, 3)
}

/// **Hardwired:** display connector / LTDC candidate.
#[allow(non_snake_case)]
pub fn PH4() -> (r: Pin<true>)
    ensures
        r.port == Port::H && r.num == 4,
        r.restricted() == (pad_role(Port::H, 4) == PinRole::Hardwired),
        r.restricted() == restricted_role(pad_role(Port::H, 4)),
{
    Pin::new(Port::H, 4)
}

/// **Hardwired:** display connector / LTDC candidate.
#[allow(non_snake_case)]
pub fn PH5() -> (r: Pin<true>)
    ensures
        r.port == Port::H && r.num == 5,
        r.restricted() == (pad_role(Port::H, 5) == PinRole::Hardwired),
        r.restricted() == restricted_role(pad_role(Port::H, 5)),
{
    Pin::new(Port::H, 5)
}

/// **Hardwired:** display connector / LTDC candidate.
#[allow(non_snake_case)]
pub fn PH6() -> (r: Pin<true>)
    ensures
        r.port == Port::H && r.num == 6,
        r.restricted() == (pad_role(Port::H, 6) == PinRole::Hardwired),
        r.restricted() == restricted_role(pad_role(Port::H, 6)),
{
    Pin::new(Port::H, 6)
}

/// **Hardwired:** FMC_SDCKE.
#[allow(non_snake_case)]
pub fn PH7() -> (r: Pin<true>)
    ensures
        r.port == Port::H && r.num == 7,
        r.restricted() == (pad_role(Port::H, 7) == PinRole::Hardwired),
        r.restricted() == restricted_role(pad_role(Port::H, 7)),
{
    Pin::new(Port::H, 7)
}

/// **Hardwired:** display connector / LTDC candidate.
#[allow(non_snake_case)]
pub fn PH8() -> (r: Pin<true>)
    ensures
        r.port == Port::H && r.num == 8,
        r.restricted() == (pad_role(Port::H, 8) == PinRole::Hardwired),
        r.restricted() == restricted_role(pad_role(Port::H, 8)),
{
    Pin::new(Port::H, 8)
}

/// **Hardwired:** display connector / LTDC candidate.
#[allow(non_snake_case)]
pub fn PH9() -> (r: Pin<true>)
    ensures
        r.port == Port::H && r.num == 9,
        r.restricted() == (pad_role(Port::H, 9) == PinRole::Hardwired),
        r.restricted() == restricted_role(pad_role(Port::H, 9)),
{
    Pin::new(Port::H, 9)
}

/// **Hardwired:** display connector / LTDC candidate.
#[allow(non_snake_case)]
pub fn PH10() -> (r: Pin<true>)
    ensures
        r.port == Port::H && r.num == 10,
        r.restricted() == (pad_role(Port::H, 10) == PinRole::Hardwired),
        r.restricted() == restricted_role(pad_role(Port::H, 10)),
{
    Pin::new(Port::H, 10)
}

/// **Hardwired:** display connector / LTDC candidate.
#[allow(non_snake_case)]
pub fn PH11() -> (r: Pin<true>)
    ensures
        r.port == Port::H && r.num == 11,
        r.restricted() == (pad_role(Port::H, 11) == PinRole::Hardwired),
        r.restricted() == restricted_role(pad_role(Port::H, 11)),
{
    Pin::new(Port::H, 11)
}

/// **Hardwired:** display connector / LTDC candidate.
#[allow(non_snake_case)]
pub fn PH12() -> (r: Pin<true>)
    ensures
        r.port == Port::H && r.num == 12,
        r.restricted() == (pad_role(Port::H, 12) == PinRole::Hardwired),
        r.restricted() == restricted_role(pad_role(Port::H, 12)),
{
    Pin::new(Port::H, 12)
}

/// **Hardwired:** display connector / LTDC candidate.
#[allow(non_snake_case)]
pub fn PH13() -> (r: Pin<true>)
    ensures
        r.port == Port::H && r.num == 13,
        r.restricted() == (pad_role(Port::H, 13) == PinRole::Hardwired),
        r.restricted() == restricted_role(pad_role(Port::H, 13)),
{
    Pin::new(Port::H, 13)
}

/// **Hardwired:** display connector / LTDC candidate.
#[allow(non_snake_case)]
pub fn PH14() -> (r: Pin<true>)
    ensures
        r.port == Port::H && r.num == 14,
        r.restricted() == (pad_role(Port::H, 14) == PinRole::Hardwired),
        r.restricted() == restricted_role(pad_role(Port::H, 14)),
{
    Pin::new(Port::H, 14)
}

/// **Hardwired:** display connector / LTDC candidate.
#[allow(non_snake_case)]
pub fn PH15() -> (r: Pin<true>)
    ensures
        r.port == Port::H && r.num == 15,
        r.restricted() == (pad_role(Port::H, 15) == PinRole::Hardwired),
        r.restricted() == restricted_role(pad_role(Port::H, 15)),
{
    Pin::new(Port::H, 15)
}

/// Pad PI0.
#[allow(non_snake_case)]
pub fn PI0() -> (r: Pin<false>)
    ensures
        r.port == Port::I && r.num == 0,
        r.restricted() == (pad_role(Port::I, 0) == PinRole::Hardwired),
        r.restricted() == restricted_role(pad_role(Port::I, 0)),
{
    Pin::new(Port::I, 0)
}

/// Pad PI1.
#[allow(non_snake_case)]
pub fn PI1() -> (r: Pin<false>)
    ensures
        r.port == Port::I && r.num == 1,
        r.restricted() == (pad_role(Port::I, 1) == PinRole::Hardwired),
        r.restricted() == restricted_role(pad_role(Port::I, 1)),
{
    Pin::new(Port::I, 1)
}

/// Pad PI2.
#[allow(non_snake_case)]
pub fn PI2() -> (r: Pin<false>)
    ensures
        r.port == Port::I && r.num == 2,
        r.restricted() == (pad_role(Port::I, 2) == PinRole::Hardwired),
        r.restricted() == restricted_role(pad_role(Port::I, 2)),
{
    Pin::new(Port::I, 2)
}

/// Pad PI3.
#[allow(non_snake_case)]
pub fn PI3() -> (r: Pin<false>)
    ensures
        r.port == Port::I && r.num == 3,
        r.restricted() == (pad_role(Port::I, 3) == PinRole::Hardwired),
        r.restricted() == restricted_role(pad_role(Port::I, 3)),
{
    Pin::new(Port::I, 3)
}

/// Pad PI4.
#[allow(non_snake_case)]
pub fn PI4() -> (r: Pin<false>)
    ensures
        r.port == Port::I && r.num == 4,
        r.restricted() == (pad_role(Port::I, 4) == PinRole::Hardwired),
        r.restricted() == restricted_role(pad_role(Port::I, 4)),
{
    Pin::new(Port::I, 4)
}

/// Pad PI5.
#[allow(non_snake_case)]
pub fn PI5() -> (r: Pin<false>)
    ensures
        r.port == Port::I && r.num == 5,
        r.restricted() == (pad_role(Port::I, 5) == PinRole::Hardwired),
        r.restricted() == restricted_role(pad_role(Port::I, 5)),
{
    Pin::new(Port::I, 5)
}

/// Pad PI6.
#[allow(non_snake_case)]
pub fn PI6() -> (r: Pin<false>)
    ensures
        r.port == Port::I && r.num == 6,
        r.restricted() == (pad_role(Port::I, 6) == PinRole::Hardwired),
        r.restricted() == restricted_role(pad_role(Port::I, 6)),
{
    Pin::new(Port::I, 6)
}

/// Pad PI7.
#[allow(non_snake_case)]
pub fn PI7() -> (r: Pin<false>)
    ensures
        r.port == Port::I && r.num == 7,
        r.restricted() == (pad_role(Port::I, 7) == PinRole::Hardwired),
        r.restricted() == restricted_role(pad_role(Port::I, 7)),
{
    Pin::new(Port::I, 7)
}

/// Pad PI8.
#[allow(non_snake_case)]
pub fn PI8() -> (r: Pin<false>)
    ensures
        r.port == Port::I && r.num == 8,
        r.restricted() == (pad_role(Port::I, 8) == PinRole::Hardwired),
        r.restricted() == restricted_role(pad_role(Port::I, 8)),
{
    Pin::new(Port::I, 8)
}

/// Pad PI9.
#[allow(non_snake_case)]
pub fn PI9() -> (r: Pin<false>)
    ensures
        r.port == Port::I && r.num == 9,
        r.restricted() == (pad_role(Port::I, 9) == PinRole::Hardwired),
        r.restricted() == restricted_role(pad_role(Port::I, 9)),
{
    Pin::new(Port::I, 9)
}

/// Pad PI10.
#[allow(non_snake_case)]
pub fn PI10() -> (r: Pin<false>)
    ensures
        r.port == Port::I && r.num == 10,
        r.restricted() == (pad_role(Port::I, 10) == PinRole::Hardwired),
        r.restricted() == restricted_role(pad_role(Port::I, 10)),
{
    Pin::new(Port::I, 10)
}

/// Pad PI12.
#[allow(non_snake_case)]
pub fn PI12() -> (r: Pin<false>)
    ensures
        r.port == Port::I && r.num == 12,
        r.restricted() == (pad_role(Port::I, 12) == PinRole::Hardwired),
        r.restricted() == restricted_role(pad_role(Port::I, 12)),
{
    Pin::new(Port::I, 12)
}

/// Pad PI13.
#[allow(non_snake_case)]
pub fn PI13() -> (r: Pin<false>)
    ensures
        r.port == Port::I && r.num == 13,
        r.restricted() == (pad_role(Port::I, 13) == PinRole::Hardwired),
        r.restricted() == restricted_role(pad_role(Port::I, 13)),
{
    Pin::new(Port::I, 13)
}

/// Pad PI14.
#[allow(non_snake_case)]
pub fn PI14() -> (r: Pin<false>)
    ensures
        r.port == Port::I && r.num == 14,
        r.restricted() == (pad_role(Port::I, 14) == PinRole::Hardwired),
        r.restricted() == restricted_role(pad_role(Port::I, 14)),
{
    Pin::new(Port::I, 14)
}

/// Pad PI15.
#[allow(non_snake_case)]
pub fn PI15() -> (r: Pin<false>)
    ensures
        r.port == Port::I && r.num == 15,
        r.restricted() == (pad_role(Port::I, 15) == PinRole::Hardwired),
        r.restricted() == restricted_role(pad_role(Port::I, 15)),
{
    Pin::new(Port::I, 15)
}

/// **Hardwired:** QSPI_RES (NOR RESET#).
#[allow(non_snake_case)]
pub fn PI11() -> (r: Pin<true>)
    ensures
        r.port == Port::I && r.num == 11,
        r.restricted() == (pad_role(Port::I, 11) == PinRole::Hardwired),
        r.restricted() == restricted_role(pad_role(Port::I, 11)),
{
    Pin::new(Port::I, 11)
}

/// Pad PJ6.
#[allow(non_snake_case)]
pub fn PJ6() -> (r: Pin<false>)
    ensures
        r.port == Port::J && r.num == 6,
        r.restricted() == (pad_role(Port::J, 6) == PinRole::Hardwired),
        r.restricted() == restricted_role(pad_role(Port::J, 6)),
{
    Pin::new(Port::J, 6)
}

/// Pad PJ7.
#[allow(non_snake_case)]
pub fn PJ7() -> (r: Pin<false>)
    ensures
        r.port == Port::J && r.num == 7,
        r.restricted() == (pad_role(Port::J, 7) == PinRole::Hardwired),
        r.restricted() == restricted_role(pad_role(Port::J, 7)),
{
    Pin::new(Port::J, 7)
}

/// Pad PJ8.
#[allow(non_snake_case)]
pub fn PJ8() -> (r: Pin<false>)
    ensures
        r.port == Port::J && r.num == 8,
        r.restricted() == (pad_role(Port::J, 8) == PinRole::Hardwired),
        r.restricted() == restricted_role(pad_role(Port::J, 8)),
{
    Pin::new(Port::J, 8)
}

/// Pad PJ9.
#[allow(non_snake_case)]
pub fn PJ9() -> (r: Pin<false>)
    ensures
        r.port == Port::J && r.num == 9,
        r.restricted() == (pad_role(Port::J, 9) == PinRole::Hardwired),
        r.restricted() == restricted_role(pad_role(Port::J, 9)),
{
    Pin::new(Port::J, 9)
}

/// Pad PJ10.
#[allow(non_snake_case)]
pub fn PJ10() -> (r: Pin<false>)
    ensures
        r.port == Port::J && r.num == 10,
        r.restricted() == (pad_role(Port::J, 10) == PinRole::Hardwired),
        r.restricted() == restricted_role(pad_role(Port::J, 10)),
{
    Pin::new(Port::J, 10)
}

/// Pad PJ11.
#[allow(non_snake_case)]
pub fn PJ11() -> (r: Pin<false>)
    ensures
        r.port == Port::J && r.num == 11,
        r.restricted() == (pad_role(Port::J, 11) == PinRole::Hardwired),
        r.restricted() == restricted_role(pad_role(Port::J, 11)),
{
    Pin::new(Port::J, 11)
}

/// Pad PK0.
#[allow(non_snake_case)]
pub fn PK0() -> (r: Pin<false>)
    ensures
        r.port == Port::K && r.num == 0,
        r.restricted() == (pad_role(Port::K, 0) == PinRole::Hardwired),
        r.restricted() == restricted_role(pad_role(Port::K, 0)),
{
    Pin::new(Port::K, 0)
}

/// Pad PK1.
#[allow(non_snake_case)]
pub fn PK1() -> (r: Pin<false>)
    ensures
        r.port == Port::K && r.num == 1,
        r.restricted() == (pad_role(Port::K, 1) == PinRole::Hardwired),
        r.restricted() == restricted_role(pad_role(Port::K, 1)),
{
    Pin::new(Port::K, 1)
}

/// Pad PK2.
#[allow(non_snake_case)]
pub fn PK2() -> (r: Pin<false>)
    ensures
        r.port == Port::K && r.num == 2,
        r.restricted() == (pad_role(Port::K, 2) == PinRole::Hardwired),
        r.restricted() == restricted_role(pad_role(Port::K, 2)),
{
    Pin::new(Port::K, 2)
}

/// The allow flag is needed exactly for restricted pads, pads above 15 are absent,
/// and the four status LEDs can be claimed without it.
pub proof fn lemma_roles(port: Port, num: u8)
    ensures
        num > 15 ==> pad_role(port, num) == PinRole::Absent,
        pad_role(Port::E, 2) == PinRole::Led && pad_role(Port::E, 3) == PinRole::Led
            && pad_role(Port::E, 4) == PinRole::Led && pad_role(Port::E, 5) == PinRole::Led,
        pad_role(port, num) == PinRole::Led ==> port == Port::E && 2 <= num <= 5,
        !restricted_role(PinRole::Led),
{
}

} // verus!
