//! Frame-pointer walk of the panic handler: only frames in the bootloader's DTCM
//! stack are followed, at most sixteen of them, always towards higher addresses.
use vstd::prelude::*;

verus! {

pub const MAX_BACKTRACE_FRAMES: usize = 16;

/// `fp` points into DTCM (`0x2000_0000 .. 0x2002_0000`).
pub fn fp_in_dtcm(fp: usize) -> (r: bool)
    ensures
        r == (0x2000_0000 <= fp < 0x2002_0000),
{
    fp >= 0x2000_0000 && fp < 0x2002_0000
}

/// The walk may read the frame record at `fp`.
pub fn frame_readable(fp: usize) -> (r: bool)
    ensures
        r == (fp != 0 && 0x2000_0000 <= fp < 0x2002_0000),
{
    fp != 0 && fp_in_dtcm(fp)
}

/// The walk continues to the caller's frame `next_fp` only if it lies above `fp`
/// (frames must grow towards higher addresses, so the walk terminates).
pub fn frame_advances(fp: usize, next_fp: usize) -> (r: bool)
    ensures
        r == (next_fp > fp),
{
    next_fp > fp
}

} // verus!
