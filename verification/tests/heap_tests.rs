use armos::heap::free_list::FreeList;
use armos::heap::layout::{align_up, block_layout};
use armos::heap::region::Region;
use armos::heap::stats::{heap_capacity, heap_stats};

const START: usize = 0x1000;
const END: usize = 0x2000;

fn fresh() -> FreeList {
    FreeList::new(START, END)
}

#[test]
fn align_up_rounds_to_the_next_multiple() {
    assert_eq!(align_up(0, 8), 0);
    assert_eq!(align_up(1, 8), 8);
    assert_eq!(align_up(8, 8), 8);
    assert_eq!(align_up(9, 4), 12);
    assert_eq!(align_up(0x1003, 0x1000), 0x2000);
}

#[test]
fn block_layout_small_alignment_uses_word_header() {
    // size 1, align 1: header 4 + 1 byte, rounded to the free-node alignment and at
    // least the size of a free node.
    assert_eq!(block_layout(1, 1), Some((8, 4, 4)));
    assert_eq!(block_layout(4, 4), Some((8, 4, 4)));
    assert_eq!(block_layout(10, 4), Some((16, 4, 4)));
}

#[test]
fn block_layout_large_alignment_grows_header() {
    // A 16-aligned payload gets a 16-byte header so that it stays aligned.
    assert_eq!(block_layout(16, 16), Some((32, 16, 16)));
    assert_eq!(block_layout(1, 8), Some((12, 8, 8)));
}

#[test]
fn first_allocation_starts_after_header() {
    let mut h = fresh();
    let p = h.allocate(16, 4).expect("fits");
    assert_eq!(p, START + 4);
    assert_eq!(h.heap_used(), 20);
    assert_eq!(h.live_blocks(), vec![Region { addr: START, size: 20 }]);
    assert_eq!(h.free_regions(), vec![Region { addr: START + 20, size: 0x1000 - 20 }]);
}

#[test]
fn allocations_are_aligned_and_disjoint() {
    let mut h = fresh();
    let a = h.allocate(3, 1).unwrap();
    let b = h.allocate(32, 32).unwrap();
    let c = h.allocate(7, 8).unwrap();
    assert_eq!(b % 32, 0);
    assert_eq!(c % 8, 0);
    let live = h.live_blocks();
    assert_eq!(live.len(), 3);
    for (i, x) in live.iter().enumerate() {
        for y in live.iter().skip(i + 1) {
            assert!(x.addr + x.size <= y.addr || y.addr + y.size <= x.addr);
        }
    }
    assert!(h.is_allocated(a, 3, 1));
    assert!(h.is_allocated(b, 32, 32));
    assert!(h.is_allocated(c, 7, 8));
}

#[test]
fn allocation_too_large_fails() {
    let mut h = fresh();
    assert_eq!(h.allocate(0x1000, 4), None);
    assert_eq!(h.heap_used(), 0);
    assert_eq!(h.free_regions(), vec![Region { addr: START, size: 0x1000 }]);
}

#[test]
fn exact_fit_consumes_whole_region() {
    let mut h = fresh();
    let p = h.allocate(0x1000 - 4, 4).unwrap();
    assert_eq!(p, START + 4);
    assert!(h.free_regions().is_empty());
    assert_eq!(h.allocate(1, 1), None);
}

#[test]
fn deallocate_after_allocate_restores_pool() {
    let mut h = fresh();
    let p = h.allocate(100, 8).unwrap();
    h.deallocate(p, 100, 8);
    assert_eq!(h.heap_used(), 0);
    assert!(h.live_blocks().is_empty());
    assert_eq!(h.free_regions(), vec![Region { addr: START, size: 0x1000 }]);
}

#[test]
fn freed_neighbours_coalesce() {
    let mut h = fresh();
    let a = h.allocate(12, 4).unwrap();
    let b = h.allocate(12, 4).unwrap();
    let c = h.allocate(12, 4).unwrap();
    h.deallocate(a, 12, 4);
    h.deallocate(c, 12, 4);
    // a's block and c's block (merged with the tail) are separate around b.
    assert_eq!(h.free_regions().len(), 2);
    h.deallocate(b, 12, 4);
    assert_eq!(h.free_regions(), vec![Region { addr: START, size: 0x1000 }]);
    assert_eq!(h.heap_used(), 0);
}

#[test]
fn freed_block_is_reused_first_fit() {
    let mut h = fresh();
    let a = h.allocate(60, 4).unwrap();
    let _b = h.allocate(60, 4).unwrap();
    h.deallocate(a, 60, 4);
    let c = h.allocate(20, 4).unwrap();
    assert_eq!(c, a);
}

#[test]
fn deallocate_null_is_ignored() {
    let mut h = fresh();
    let _ = h.allocate(8, 4).unwrap();
    let before = h.free_regions();
    h.deallocate(0, 8, 4);
    assert_eq!(h.free_regions(), before);
    assert_eq!(h.heap_used(), 12);
}

#[test]
fn unaligned_pool_stays_empty() {
    let mut h = FreeList::new(0x1001, 0x2000);
    assert_eq!(h.allocate(4, 1), None);
    assert!(h.free_regions().is_empty());
}

#[test]
fn tiny_pool_stays_empty() {
    let mut h = FreeList::new(0x1000, 0x1004);
    assert_eq!(h.allocate(1, 1), None);
    let mut r = FreeList::new(0x2000, 0x1000);
    assert_eq!(r.allocate(1, 1), None);
}

#[test]
fn is_allocated_rejects_unknown_pointers() {
    let mut h = fresh();
    let p = h.allocate(16, 4).unwrap();
    assert!(!h.is_allocated(0, 16, 4));
    assert!(!h.is_allocated(p + 4, 16, 4));
    assert!(h.is_allocated(p, 16, 4));
}

#[test]
fn heap_capacity_saturates() {
    assert_eq!(heap_capacity(0x1000, 0x3000), 0x2000);
    assert_eq!(heap_capacity(0x3000, 0x1000), 0);
}

#[test]
fn heap_stats_adds_up() {
    let s = heap_stats(1000, 0xC100_0000, 0xC200_0000, 0x2000_0000, 0x2000_0400);
    assert_eq!(s.total, 64 * 1024 * 1024);
    assert_eq!(s.used, 3_080_192 + 0x400 + 1000 + 64 * 1024);
    assert_eq!(s.used + s.free, s.total);
    assert_eq!(s.heap_total, 0x0100_0000);
    assert_eq!(s.heap_used, 1000);
}

#[test]
fn heap_stats_caps_used_at_total() {
    let s = heap_stats(usize::MAX, 0, 0, 0, 0);
    assert_eq!(s.used, s.total);
    assert_eq!(s.free, 0);
}
