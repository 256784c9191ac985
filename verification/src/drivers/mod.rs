//! Device drivers.

pub mod display;
