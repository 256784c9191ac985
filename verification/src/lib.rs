//! Verified core of ArmOS, a bare-metal OS for the STM32H745 (Cortex-M7).

pub mod apps;
pub mod backtrace;
pub mod board;
pub mod boot;
pub mod boot_hw;
pub mod boot_panel;
pub mod drivers;
pub mod hal;
pub mod heap;
pub mod kui;
pub mod startup;
pub mod storage;
