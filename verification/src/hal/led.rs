//! Carrier status LEDs (anode driven by GPIO, active high).
use vstd::prelude::*;

use crate::board::gpio::{PE2, PE3, PE4, PE5};

use super::gpio::{Pin, Port, bsrr_word, output_config, port_clock_ops, reg_addr};
use super::regs::{GPIO_BSRR, RegOp};

verus! {

/// The operations that claim pad `num` of `port` as output and drive it to `on`.
pub open spec fn led_ops(port: Port, num: u8, on: bool) -> Seq<RegOp> {
    port_clock_ops(port) + output_config(port, num) + seq![
        RegOp::Write { addr: reg_addr(port, GPIO_BSRR), value: bsrr_word(num, on) },
    ]
}

/// RUN LED (PE2).
pub fn run() -> (r: Pin<false>)
    ensures
        r.port == Port::E && r.num == 2,
{
    PE2()
}

/// DBG LED (PE3).
pub fn dbg() -> (r: Pin<false>)
    ensures
        r.port == Port::E && r.num == 3,
{
    PE3()
}

/// ERR LED (PE4).
pub fn err() -> (r: Pin<false>)
    ensures
        r.port == Port::E && r.num == 4,
{
    PE4()
}

/// PNC LED (PE5).
pub fn pnc() -> (r: Pin<false>)
    ensures
        r.port == Port::E && r.num == 5,
{
    PE5()
}

/// Claims a pad (normally an LED's) as output and drives it to `on`.
pub fn set(pin: Pin<false>, on: bool) -> (r: Vec<RegOp>)
    requires
        pin.num < 16,
    ensures
        r@ == led_ops(pin.port, pin.num, on),
{
    let (mut o, mut ops) = pin.into_output();
    ops.push(o.set(on));
    proof {
        assert(ops@ =~= led_ops(pin.port, pin.num, on));
    }
    ops
}

/// Claims the four LEDs as outputs and switches them off.
pub fn init() -> (r: Vec<RegOp>)
    ensures
        r@ == led_ops(Port::E, 2, false) + led_ops(Port::E, 3, false) + led_ops(Port::E, 4, false)
            + led_ops(Port::E, 5, false),
{
    let mut v: Vec<RegOp> = Vec::new();
    let mut a = set(run(), false);
    v.append(&mut a);
    let mut b = set(dbg(), false);
    v.append(&mut b);
    let mut c = set(err(), false);
    v.append(&mut c);
    let mut d = set(pnc(), false);
    v.append(&mut d);
    v
}

} // verus!
