//! OS start-up: the system-control writes made before `main`.
//!
//! Copying `.data` and zeroing `.bss` happen between them, over the linker's
//! symbols, outside this crate.
use vstd::prelude::*;

use crate::hal::regs::RegOp;

verus! {

/// Vector table offset register.
pub const SCB_VTOR: usize = 0xE000_ED08;

/// Coprocessor access control register.
pub const CPACR: usize = 0xE000_ED88;

/// Full access to CP10 and CP11 (the FPU).
pub const CPACR_FPU_FULL: u32 = 0x00F0_0000;

/// The OS executes from QUADSPI NOR; its vector table sits at the start of it.
pub const OS_VTOR: u32 = 0x9000_0000;

/// Moves the vector table to `addr`.
pub fn set_vtor(addr: u32) -> (r: RegOp)
    ensures
        r == (RegOp::Write { addr: SCB_VTOR, value: addr }),
{
    RegOp::Write { addr: SCB_VTOR, value: addr }
}

/// Grants full access to the FPU, keeping the other CPACR bits.
pub fn enable_fpu() -> (r: RegOp)
    ensures
        r == (RegOp::Modify { addr: CPACR, mask: CPACR_FPU_FULL, value: CPACR_FPU_FULL }),
{
    RegOp::Modify { addr: CPACR, mask: CPACR_FPU_FULL, value: CPACR_FPU_FULL }
}

/// Setting the FPU bits is an OR into CPACR.
pub proof fn lemma_enable_fpu_ors(old: u32)
    ensures
        crate::hal::regs::modify_spec(old, CPACR_FPU_FULL, CPACR_FPU_FULL) == old | CPACR_FPU_FULL,
{
    assert((old & !0x00F0_0000u32) | (0x00F0_0000u32 & 0x00F0_0000u32) == old | 0x00F0_0000u32)
        by (bit_vector);
}

} // verus!
