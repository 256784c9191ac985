//! Intrusive free-list allocator over the linker heap region, modelled as an
//! address-ordered list of free regions plus the headers of live blocks.

pub mod layout;
pub mod region;
pub mod free_list;
pub mod stats;
