//! Built-in processes.

pub mod proctracker;
