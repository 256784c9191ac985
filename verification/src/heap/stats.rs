//! Main-RAM (SDRAM) usage summary for the UI.
use vstd::prelude::*;

use crate::board::{FB_RESERVE_BYTES, MAIN_RAM_SIZE, STACK_SIZE};

verus! {

/// Snapshot of main RAM usage.
#[derive(Clone, Copy, Debug, PartialEq, Eq, Structural)]
pub struct HeapStats {
    /// Framebuffers + statics (.data/.bss) + heap consumed + stack reserve.
    pub used: usize,
    /// Bytes still available in the main RAM window.
    pub free: usize,
    /// The whole SDRAM window (64 MiB on the carrier).
    pub total: usize,
    /// Size of the free-list heap pool.
    pub heap_total: usize,
    /// Heap bytes reserved by live blocks (headers included).
    pub heap_used: usize,
}

/// `a + b`, saturating at `usize::MAX`.
pub open spec fn sat_add(a: int, b: int) -> int {
    if a + b > usize::MAX {
        usize::MAX as int
    } else {
        a + b
    }
}

/// `a - b`, saturating at 0.
pub open spec fn sat_sub(a: int, b: int) -> int {
    if a >= b {
        a - b
    } else {
        0
    }
}

/// Size of the heap pool `[start, end)` (0 if the bounds are reversed).
pub fn heap_capacity(start: usize, end: usize) -> (r: usize)
    ensures
        r == sat_sub(end as int, start as int),
{
    end.saturating_sub(start)
}

/// Used / free / total SDRAM, given the heap counter, the heap pool bounds and the
/// bounds of the statics (`_sdata`, `_ebss`). The framebuffer reserve and the stack
/// count as used.
pub fn heap_stats(heap_used: usize, heap_start: usize, heap_end: usize, sdata: usize, ebss: usize) -> (r: HeapStats)
    ensures
        ({
            let statics = sat_sub(ebss as int, sdata as int);
            let used = sat_add(sat_add(sat_add(FB_RESERVE_BYTES as int, statics), heap_used as int), STACK_SIZE as int);
            let total = FB_RESERVE_BYTES + MAIN_RAM_SIZE;
            &&& r.total == total
            &&& r.used == if used <= total { used } else { total }
            &&& r.free == r.total - r.used
            &&& r.heap_total == sat_sub(heap_end as int, heap_start as int)
            &&& r.heap_used == heap_used
        }),
        r.used + r.free == r.total,
{
    let heap_total = heap_capacity(heap_start, heap_end);
    let statics = ebss.saturating_sub(sdata);
    let used = FB_RESERVE_BYTES.saturating_add(statics).saturating_add(heap_used).saturating_add(
        STACK_SIZE,
    );
    let total = FB_RESERVE_BYTES.saturating_add(MAIN_RAM_SIZE);
    let used_capped = if used < total { used } else { total };
    HeapStats { used: used_capped, free: total.saturating_sub(used_capped), total, heap_total, heap_used }
}

} // verus!
