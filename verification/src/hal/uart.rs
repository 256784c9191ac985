//! USART1 console set-up on PA9/PA10 (AF7): the register operations, the baud-rate
//! divisor and the transmit-ready test.
use vstd::prelude::*;

use crate::board::{GpioPin, UART_BAUD, usart1_rx, usart1_tx};

use super::gpio::{af_config, configure_af_pin};
use super::regs::{
    GPIOA_BASE, GpioId, RCC_AHB4ENR, RCC_APB2ENR, RCC_BASE, RCC_GPIOAEN, RCC_USART1EN, RegOp,
    USART1_BASE, USART_BRR, USART_CR1, USART_TDR, USART_TE, USART_TXE, USART_UE, modify_reg,
};

verus! {

/// The APB2 clock divided by the baud rate, rounded to nearest.
pub open spec fn brr_spec(pclk: u32, baud: u32) -> u32 {
    ((pclk + baud / 2) / (baud as int)) as u32
}

/// Turns the port's clock on (only port A carries console pins).
pub fn enable_gpio_clock(port: GpioId) -> (r: Option<RegOp>)
    ensures
        port.base == GPIOA_BASE ==> r == Some(
            RegOp::Modify { addr: (RCC_BASE + RCC_AHB4ENR) as usize, mask: RCC_GPIOAEN, value: RCC_GPIOAEN },
        ),
        port.base != GPIOA_BASE ==> r is None,
{
    if port.base == GPIOA_BASE {
        Some(modify_reg(RCC_BASE, RCC_AHB4ENR, RCC_GPIOAEN, RCC_GPIOAEN))
    } else {
        None
    }
}

/// Turns the USART1 clock on.
pub fn enable_usart1_clock() -> (r: RegOp)
    ensures
        r == (RegOp::Modify { addr: (RCC_BASE + RCC_APB2ENR) as usize, mask: RCC_USART1EN, value: RCC_USART1EN }),
{
    modify_reg(RCC_BASE, RCC_APB2ENR, RCC_USART1EN, RCC_USART1EN)
}

/// Routes a console pin to its alternate function.
pub fn configure_pin(pin: &GpioPin) -> (r: Vec<RegOp>)
    requires
        pin.pin < 16,
    ensures
        r@ == af_config(GPIOA_BASE, pin.pin, pin.alternate),
{
    configure_af_pin(pin.port.base(), pin.pin, pin.alternate)
}

/// Baud-rate register value: the APB2 clock divided by the baud rate, rounded to nearest.
pub fn usart_brr(pclk: u32, baud: u32) -> (r: u32)
    requires
        baud > 0,
        pclk + baud / 2 <= u32::MAX,
    ensures
        r == brr_spec(pclk, baud),
{
    (pclk + (baud / 2)) / baud
}

/// Programs the baud rate for APB2 clock `pclk2` and enables the transmitter.
pub fn configure_usart1(pclk2: u32) -> (r: Vec<RegOp>)
    requires
        pclk2 + UART_BAUD / 2 <= u32::MAX,
    ensures
        r@ == seq![
            RegOp::Write { addr: (USART1_BASE + USART_BRR) as usize, value: brr_spec(pclk2, UART_BAUD) },
            RegOp::Write { addr: (USART1_BASE + USART_CR1) as usize, value: USART_UE | USART_TE },
        ],
{
    let brr = usart_brr(pclk2, UART_BAUD);
    let mut v: Vec<RegOp> = Vec::new();
    v.push(RegOp::Write { addr: USART1_BASE + USART_BRR, value: brr });
    v.push(RegOp::Write { addr: USART1_BASE + USART_CR1, value: USART_UE | USART_TE });
    v
}

/// Full console bring-up for APB2 clock `pclk2`: GPIO and USART clocks, pin muxing
/// of TX and RX, baud rate and transmitter enable.
pub fn init_hw(pclk2: u32) -> (r: Vec<RegOp>)
    requires
        pclk2 + UART_BAUD / 2 <= u32::MAX,
    ensures
        r@ == seq![
            RegOp::Modify { addr: (RCC_BASE + RCC_AHB4ENR) as usize, mask: RCC_GPIOAEN, value: RCC_GPIOAEN },
            RegOp::Modify { addr: (RCC_BASE + RCC_APB2ENR) as usize, mask: RCC_USART1EN, value: RCC_USART1EN },
        ] + af_config(GPIOA_BASE, 9, 7) + af_config(GPIOA_BASE, 10, 7) + seq![
            RegOp::Write { addr: (USART1_BASE + USART_BRR) as usize, value: brr_spec(pclk2, UART_BAUD) },
            RegOp::Write { addr: (USART1_BASE + USART_CR1) as usize, value: USART_UE | USART_TE },
        ],
{
    let tx = usart1_tx();
    let rx = usart1_rx();
    let mut v: Vec<RegOp> = Vec::new();
    match enable_gpio_clock(GpioId { base: tx.port.base() }) {
        Some(op) => v.push(op),
        None => {},
    }
    v.push(enable_usart1_clock());
    let mut a = configure_pin(&tx);
    v.append(&mut a);
    let mut b = configure_pin(&rx);
    v.append(&mut b);
    let mut c = configure_usart1(pclk2);
    v.append(&mut c);
    proof {
        assert(v@ =~= seq![
            RegOp::Modify { addr: (RCC_BASE + RCC_AHB4ENR) as usize, mask: RCC_GPIOAEN, value: RCC_GPIOAEN },
            RegOp::Modify { addr: (RCC_BASE + RCC_APB2ENR) as usize, mask: RCC_USART1EN, value: RCC_USART1EN },
        ] + af_config(GPIOA_BASE, 9, 7) + af_config(GPIOA_BASE, 10, 7) + seq![
            RegOp::Write { addr: (USART1_BASE + USART_BRR) as usize, value: brr_spec(pclk2, UART_BAUD) },
            RegOp::Write { addr: (USART1_BASE + USART_CR1) as usize, value: USART_UE | USART_TE },
        ]);
    }
    v
}

/// The transmit data register is empty, given the ISR value.
pub fn tx_ready(isr: u32) -> (r: bool)
    ensures
        r == (isr & USART_TXE != 0),
{
    isr & USART_TXE != 0
}

/// The write that sends byte `b` once the transmit register is empty.
pub fn tdr_write(b: u8) -> (r: RegOp)
    ensures
        r == (RegOp::Write { addr: (USART1_BASE + USART_TDR) as usize, value: b as u32 }),
{
    RegOp::Write { addr: USART1_BASE + USART_TDR, value: b as u32 }
}

/// The baud-rate divisor rounds the APB2 clock over the baud rate to the nearest
/// integer: the clock it implies (`brr * baud`) is at most half a baud above the real
/// clock and less than half a baud below it.
pub proof fn lemma_brr_nearest(pclk: u32, baud: u32)
    requires
        baud > 0,
        pclk + baud / 2 <= u32::MAX,
    ensures
        brr_spec(pclk, baud) * baud - pclk <= baud / 2,
        pclk - brr_spec(pclk, baud) * baud < baud - baud / 2,
{
    let x = pclk + baud / 2;
    let q = x / (baud as int);
    vstd::arithmetic::div_mod::lemma_fundamental_div_mod(x as int, baud as int);
    assert(0 <= x % (baud as int) < baud);
    assert(q >= 0);
    assert(q * baud <= x) by (nonlinear_arith)
        requires x == baud * q + x % (baud as int), x % (baud as int) >= 0;
    assert(q <= u32::MAX) by (nonlinear_arith)
        requires q * baud <= x, x <= u32::MAX, baud >= 1, q >= 0;
    assert(brr_spec(pclk, baud) == q);
    assert(x < q * baud + baud) by (nonlinear_arith)
        requires x == baud * q + x % (baud as int), x % (baud as int) < baud;
}

} // verus!
