//! Hardware abstraction: register maps, GPIO, clock tree and UART set-up.

pub mod clock;
pub mod gpio;
pub mod led;
pub mod regs;
pub mod semihost;
pub mod uart;
