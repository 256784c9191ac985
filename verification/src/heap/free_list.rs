//! The allocator's state: the address-ordered free list and the live blocks.
use vstd::prelude::*;

use super::layout::{
    FREE_NODE_ALIGN, HEADER_SIZE, MIN_FREE_SIZE, align_up, align_up_spec, block_align, block_layout, block_need,
    header_size_for, is_pow2, layout_ok,
};
use super::region::{
    Region, canonical, covered, fits_gap, lemma_canonical_disjoint, lemma_canonical_remove, lemma_canonical_unique,
    lemma_splice, lemma_total_nonneg, lemma_total_remove, merge_hi, merge_lo, merged, pairwise_disjoint, splice, total,
};

verus! {

/// Ghost picture of the allocator.
pub struct HeapView {
    /// Free regions in address order.
    pub blocks: Seq<Region>,
    /// Live blocks, in the order they were handed out: `addr` is where the header
    /// sits and `size` is what the header records.
    pub live: Seq<Region>,
    /// Bytes reserved by live blocks (wrapping like the atomic counter it stands for).
    pub used: usize,
    pub heap_start: usize,
    pub heap_end: usize,
    pub initialized: bool,
}

/// The linker region `[start, end)` can hold a first free node.
pub open spec fn pool_present(start: usize, end: usize) -> bool {
    end - start >= MIN_FREE_SIZE && start % FREE_NODE_ALIGN == 0
}

/// Every region of `s` is a well-placed free node inside `[lo, hi)`.
pub open spec fn blocks_ok(s: Seq<Region>, lo: usize, hi: usize) -> bool {
    &&& canonical(s)
    &&& forall|i: int|
        #![trigger s[i]]
        0 <= i < s.len() ==> {
            &&& s[i].addr % FREE_NODE_ALIGN == 0
            &&& s[i].size >= MIN_FREE_SIZE
            &&& lo <= s[i].addr
            &&& s[i].end() <= hi
        }
}

/// Every live block is a well-placed block inside `[lo, hi)` and no two overlap.
pub open spec fn live_ok(s: Seq<Region>, lo: usize, hi: usize) -> bool {
    &&& pairwise_disjoint(s)
    &&& forall|i: int|
        #![trigger s[i]]
        0 <= i < s.len() ==> {
            &&& s[i].addr % FREE_NODE_ALIGN == 0
            &&& s[i].size >= MIN_FREE_SIZE
            &&& lo <= s[i].addr
            &&& s[i].end() <= hi
        }
}

/// `a + b` as the wrapping counter computes it.
pub open spec fn wrap_add(a: usize, b: int) -> usize {
    ((a + b) % (usize::MAX as int + 1)) as usize
}

impl HeapView {
    /// The heap pool has been set up and is large enough to be managed.
    pub open spec fn pool(self) -> bool {
        self.initialized && pool_present(self.heap_start, self.heap_end)
    }

    /// Well-formedness: the free list is canonical, live blocks never overlap, and
    /// free regions and live blocks together partition the heap pool.
    pub open spec fn wf(self) -> bool {
        &&& blocks_ok(self.blocks, self.heap_start, self.heap_end)
        &&& live_ok(self.live, self.heap_start, self.heap_end)
        &&& forall|x: int|
            #![trigger covered(self.blocks, x)]
            #![trigger covered(self.live, x)]
            !(covered(self.blocks, x) && covered(self.live, x))
        &&& forall|x: int|
            #![trigger covered(self.blocks, x)]
            #![trigger covered(self.live, x)]
            (covered(self.blocks, x) || covered(self.live, x)) <==> (self.pool()
                && self.heap_start <= x < self.heap_end)
        &&& self.used == (total(self.live) % (usize::MAX as int + 1))
    }

    /// The state after the lazy first-use set-up.
    pub open spec fn init(self) -> HeapView {
        if self.initialized {
            self
        } else {
            HeapView {
                blocks: if pool_present(self.heap_start, self.heap_end) {
                    seq![Region { addr: self.heap_start, size: (self.heap_end - self.heap_start) as usize }]
                } else {
                    Seq::empty()
                },
                initialized: true,
                ..self
            }
        }
    }
}

/// `a - b` as the wrapping counter computes it.
pub open spec fn wrap_sub(a: usize, b: int) -> usize {
    ((a - b) % (usize::MAX as int + 1)) as usize
}

/// Where a block of alignment `al` would start inside free region `b`.
pub open spec fn fit_start(b: Region, al: int) -> int {
    align_up_spec(b.addr as int, al)
}

/// A block of `need` bytes aligned to `al` fits in `b`, and the gap left in front of
/// it is either empty or large enough to stay a free region.
pub open spec fn fits(b: Region, need: int, al: int) -> bool {
    let st = fit_start(b, al);
    &&& st + need <= b.end()
    &&& (st == b.addr || st - b.addr >= MIN_FREE_SIZE)
}

/// Bytes a block carved from `b` takes: `need`, or everything up to the end of `b`
/// when the rest would be too small to stay free.
pub open spec fn granted(b: Region, need: int, al: int) -> int {
    let st = fit_start(b, al);
    if b.end() - (st + need) >= MIN_FREE_SIZE {
        need
    } else {
        b.end() - st
    }
}

/// `k` is the first region of `s` in which the block fits.
pub open spec fn is_first_fit(s: Seq<Region>, k: int, need: int, al: int) -> bool {
    &&& 0 <= k < s.len()
    &&& fits(s[k], need, al)
    &&& forall|j: int| 0 <= j < k ==> !fits(#[trigger] s[j], need, al)
}

/// Rounding the start of every region that first-fit search reaches (all regions up
/// to and including the first one where a block of `need` bytes aligned to `al`
/// fits) up to `al` stays within `usize`.
pub open spec fn align_reachable(s: Seq<Region>, need: int, al: int) -> bool {
    forall|j: int|
        0 <= j < s.len() && (forall|i: int| 0 <= i < j ==> !fits(#[trigger] s[i], need, al))
            ==> #[trigger] s[j].addr + al - 1 <= usize::MAX
}

/// Some region of `s` ends exactly at `a`.
pub open spec fn ends_at(s: Seq<Region>, a: int) -> bool {
    exists|j: int| 0 <= j < s.len() && #[trigger] s[j].end() == a
}

/// Some region of `s` starts exactly at `a`.
pub open spec fn starts_at(s: Seq<Region>, a: int) -> bool {
    exists|j: int| 0 <= j < s.len() && #[trigger] s[j].addr == a
}

/// How many regions of `s` the range `[addr, addr + size)` touches (0, 1 or 2): the
/// one ending at `addr` and the one starting at `addr + size`.
pub open spec fn touching(s: Seq<Region>, addr: int, size: int) -> int {
    (if ends_at(s, addr) { 1int } else { 0int }) + (if starts_at(s, addr + size) { 1int } else { 0int })
}

/// Some live block has its header at `a`.
pub open spec fn has_live_at(s: Seq<Region>, a: int) -> bool {
    exists|j: int| 0 <= j < s.len() && #[trigger] s[j].addr == a
}

/// Same heap bounds and set-up state.
pub open spec fn same_frame(a: HeapView, b: HeapView) -> bool {
    &&& a.heap_start == b.heap_start
    &&& a.heap_end == b.heap_end
    &&& a.initialized == b.initialized
}

/// What an allocation of `(size, align)` from the set-up state `pre` does: with no
/// fitting region it returns `None` and changes nothing; otherwise it carves the block
/// from the first fitting region, records it as live and returns the payload address.
pub open spec fn alloc_result(
    pre: HeapView,
    size: usize,
    align: usize,
    ret: Option<usize>,
    post: HeapView,
) -> bool {
    let al = block_align(align);
    let need = block_need(size, align);
    match ret {
        None => {
            &&& forall|j: int| 0 <= j < pre.blocks.len() ==> !fits(#[trigger] pre.blocks[j], need, al)
            &&& post == pre
        },
        Some(u) => exists|k: int|
            #[trigger] is_first_fit(pre.blocks, k, need, al) && {
                let st = fit_start(pre.blocks[k], al);
                let g = granted(pre.blocks[k], need, al);
                &&& u == st + header_size_for(align)
                &&& post.live == pre.live.push(Region { addr: st as usize, size: g as usize })
                &&& post.used == wrap_add(pre.used, g)
                &&& forall|x: int|
                    #[trigger] covered(post.blocks, x) == (covered(pre.blocks, x) && !(st <= x < st
                        + g))
                &&& same_frame(pre, post)
            },
    }
}

/// What freeing the payload at `ptr` for `(size, align)` does: a null pointer is
/// ignored; otherwise the live block whose header sits before `ptr` goes back to the
/// free list, joined with the free regions it touches (the list grows by one region
/// less each one it touches).
pub open spec fn dealloc_result(
    pre: HeapView,
    ptr: usize,
    size: usize,
    align: usize,
    post: HeapView,
) -> bool {
    if ptr == 0 {
        post == pre
    } else {
        exists|j: int|
            0 <= j < pre.live.len() && #[trigger] pre.live[j].addr == ptr - header_size_for(align) && {
                &&& post.live == pre.live.remove(j)
                &&& post.used == wrap_sub(pre.used, pre.live[j].size as int)
                &&& forall|x: int|
                    #[trigger] covered(post.blocks, x) == (covered(pre.blocks, x)
                        || pre.live[j].holds(x))
                &&& post.blocks.len() == pre.blocks.len() + 1 - touching(
                    pre.blocks,
                    pre.live[j].addr as int,
                    pre.live[j].size as int,
                )
                &&& same_frame(pre, post)
            }
    }
}

/// Appending a region adds exactly its addresses.
pub proof fn lemma_covered_push(s: Seq<Region>, r: Region, x: int)
    ensures
        covered(s.push(r), x) == (covered(s, x) || r.holds(x)),
{
    let t = s.push(r);
    if covered(t, x) {
        let i = choose|i: int| 0 <= i < t.len() && #[trigger] t[i].holds(x);
        if i < s.len() {
            assert(s[i] == t[i]);
        }
    }
    if covered(s, x) {
        let i = choose|i: int| 0 <= i < s.len() && #[trigger] s[i].holds(x);
        assert(t[i] == s[i]);
    }
    if r.holds(x) {
        assert(t[s.len() as int] == r);
    }
}

/// Removing a region of a disjoint list uncovers exactly that region's addresses.
pub proof fn lemma_covered_remove(s: Seq<Region>, k: int, x: int)
    requires
        pairwise_disjoint(s),
        0 <= k < s.len(),
    ensures
        covered(s.remove(k), x) == (covered(s, x) && !s[k].holds(x)),
{
    let t = s.remove(k);
    if covered(t, x) {
        let i = choose|i: int| 0 <= i < t.len() && #[trigger] t[i].holds(x);
        let oi = if i < k { i } else { i + 1 };
        assert(t[i] == s[oi]);
        assert(s[oi].holds(x));
        if s[k].holds(x) {
            assert(oi == k);
        }
    }
    if covered(s, x) && !s[k].holds(x) {
        let i = choose|i: int| 0 <= i < s.len() && #[trigger] s[i].holds(x);
        let ti = if i < k { i } else { i - 1 };
        assert(t[ti] == s[i]);
        assert(t[ti].holds(x));
    }
}

/// Removing a well-placed block keeps the rest well placed and disjoint.
pub proof fn lemma_live_ok_remove(s: Seq<Region>, k: int, lo: usize, hi: usize)
    requires
        live_ok(s, lo, hi),
        0 <= k < s.len(),
    ensures
        live_ok(s.remove(k), lo, hi),
{
    let t = s.remove(k);
    assert forall|i: int, j: int, x: int|
        #![trigger t[i].holds(x), t[j].holds(x)]
        0 <= i < t.len() && 0 <= j < t.len() && t[i].holds(x) && t[j].holds(x) implies i == j by {
        let oi = if i < k { i } else { i + 1 };
        let oj = if j < k { j } else { j + 1 };
        assert(t[i] == s[oi] && t[j] == s[oj]);
        assert(s[oi].holds(x) && s[oj].holds(x));
    }
    assert forall|i: int| #![trigger t[i]] 0 <= i < t.len() implies {
        &&& t[i].addr % FREE_NODE_ALIGN == 0
        &&& t[i].size >= MIN_FREE_SIZE
        &&& lo <= t[i].addr
        &&& t[i].end() <= hi
    } by {
        let oi = if i < k { i } else { i + 1 };
        assert(t[i] == s[oi]);
    }
}

/// Appending a well-placed block that overlaps none of the others keeps the list well placed.
pub proof fn lemma_live_ok_push(s: Seq<Region>, r: Region, lo: usize, hi: usize)
    requires
        live_ok(s, lo, hi),
        r.addr % FREE_NODE_ALIGN == 0,
        r.size >= MIN_FREE_SIZE,
        lo <= r.addr,
        r.end() <= hi,
        forall|x: int| r.holds(x) ==> !covered(s, x),
    ensures
        live_ok(s.push(r), lo, hi),
{
    let t = s.push(r);
    let n = s.len() as int;
    assert forall|i: int, j: int, x: int|
        #![trigger t[i].holds(x), t[j].holds(x)]
        0 <= i < t.len() && 0 <= j < t.len() && t[i].holds(x) && t[j].holds(x) implies i == j by {
        if i < n && j < n {
            assert(t[i] == s[i] && t[j] == s[j]);
            assert(s[i].holds(x) && s[j].holds(x));
        } else if i < n {
            assert(t[i] == s[i]);
            assert(covered(s, x));
        } else if j < n {
            assert(t[j] == s[j]);
            assert(covered(s, x));
        }
    }
    assert forall|i: int| #![trigger t[i]] 0 <= i < t.len() implies {
        &&& t[i].addr % FREE_NODE_ALIGN == 0
        &&& t[i].size >= MIN_FREE_SIZE
        &&& lo <= t[i].addr
        &&& t[i].end() <= hi
    } by {
        if i < n {
            assert(t[i] == s[i]);
        }
    }
}

/// Removing a node keeps a well-placed free list well placed.
pub proof fn lemma_blocks_ok_remove(s: Seq<Region>, k: int, lo: usize, hi: usize)
    requires
        blocks_ok(s, lo, hi),
        0 <= k < s.len(),
    ensures
        blocks_ok(s.remove(k), lo, hi),
{
    lemma_canonical_remove(s, k);
    let t = s.remove(k);
    assert forall|i: int| #![trigger t[i]] 0 <= i < t.len() implies {
        &&& t[i].addr % FREE_NODE_ALIGN == 0
        &&& t[i].size >= MIN_FREE_SIZE
        &&& lo <= t[i].addr
        &&& t[i].end() <= hi
    } by {
        let oi = if i < k { i } else { i + 1 };
        assert(t[i] == s[oi]);
    }
}

/// The wrapping counter tracks the total modulo the word size when a block is added.
pub proof fn lemma_wrap_add(used: usize, t: int, g: usize)
    requires
        used == t % (usize::MAX as int + 1),
        t >= 0,
    ensures
        (used + g) % (usize::MAX as int + 1) == (t + g) % (usize::MAX as int + 1),
        wrap_add(used, g as int) == (t + g) % (usize::MAX as int + 1),
{
    let m = usize::MAX as int + 1;
    vstd::arithmetic::div_mod::lemma_add_mod_noop(t, g as int, m);
    vstd::arithmetic::div_mod::lemma_small_mod(g as nat, m as nat);
}

/// The wrapping counter tracks the total modulo the word size when a block is removed.
pub proof fn lemma_wrap_sub(used: usize, t: int, g: usize)
    requires
        used == t % (usize::MAX as int + 1),
        t >= 0,
    ensures
        wrap_sub(used, g as int) == (t - g) % (usize::MAX as int + 1),
{
    let m = usize::MAX as int + 1;
    vstd::arithmetic::div_mod::lemma_sub_mod_noop(t, g as int, m);
    vstd::arithmetic::div_mod::lemma_small_mod(g as nat, m as nat);
}

/// A multiple of `al` plus a multiple of `al` is a multiple of any `a` dividing `al`.
proof fn lemma_aligned_sum(x: int, y: int, al: int, a: int)
    requires
        al > 0,
        a > 0,
        x >= 0,
        y >= 0,
        x % al == 0,
        y % al == 0,
        al % a == 0,
    ensures
        (x + y) % a == 0,
{
    vstd::arithmetic::div_mod::lemma_mod_adds(x, y, al);
    let q = (x + y) / al;
    vstd::arithmetic::div_mod::lemma_fundamental_div_mod(x + y, al);
    let p = al / a;
    vstd::arithmetic::div_mod::lemma_fundamental_div_mod(al, a);
    assert(x + y == a * (p * q)) by (nonlinear_arith)
        requires
            x + y == al * q + 0,
            al == a * p + 0,
    ;
    vstd::arithmetic::div_mod::lemma_mod_multiples_basic(p * q, a);
    assert((p * q) * a == a * (p * q)) by (nonlinear_arith);
}

/// Setting the heap up keeps the allocator well formed.
pub proof fn lemma_init_wf(v: HeapView)
    requires
        v.wf(),
    ensures
        v.init().wf(),
        !v.initialized ==> v.blocks.len() == 0 && v.live.len() == 0,
{
    if !v.initialized {
        if v.blocks.len() > 0 {
            assert(v.blocks[0].holds(v.blocks[0].addr as int));
            assert(covered(v.blocks, v.blocks[0].addr as int));
        }
        if v.live.len() > 0 {
            assert(v.live[0].size >= MIN_FREE_SIZE);
            assert(v.live[0].holds(v.live[0].addr as int));
            assert(covered(v.live, v.live[0].addr as int));
        }
        let w = v.init();
        assert(v.live =~= Seq::<Region>::empty());
        if pool_present(v.heap_start, v.heap_end) {
            let s = w.blocks;
            assert forall|x: int| #[trigger] covered(s, x) == (v.heap_start <= x < v.heap_end) by {
                if v.heap_start <= x < v.heap_end {
                    assert(s[0].holds(x));
                }
            }
        }
    }
}

/// A successful allocation hands out memory inside the heap pool that was free before
/// the call, and that afterwards no free region and no other live block holds.
pub proof fn lemma_allocation_isolated(v0: HeapView, v1: HeapView, size: usize, align: usize, u: usize)
    requires
        v0.wf(),
        v1.wf(),
        layout_ok(size, align),
        alloc_result(v0.init(), size, align, Some(u), v1),
    ensures
        v1.heap_start <= u - header_size_for(align),
        u + size <= v1.heap_end,
        forall|x: int| u <= x < u + size ==> #[trigger] covered(v0.init().blocks, x) && !covered(v1.blocks, x),
        forall|j: int, x: int|
            0 <= j < v1.live.len() - 1 && u <= x < u + size ==> !(#[trigger] v1.live[j].holds(x)),
{
    lemma_init_wf(v0);
    let pre = v0.init();
    let al = block_align(align);
    let need = block_need(size, align);
    let k = choose|k: int| #[trigger] is_first_fit(pre.blocks, k, need, al) && {
        let st = fit_start(pre.blocks[k], al);
        let g = granted(pre.blocks[k], need, al);
        &&& u == st + header_size_for(align)
        &&& v1.live == pre.live.push(Region { addr: st as usize, size: g as usize })
        &&& v1.used == wrap_add(pre.used, g)
        &&& forall|x: int|
            #[trigger] covered(v1.blocks, x) == (covered(pre.blocks, x) && !(st <= x < st + g))
        &&& same_frame(pre, v1)
    };
    let b = pre.blocks[k];
    let st = fit_start(b, al);
    let g = granted(b, need, al);
    let n = v1.live.len() - 1;
    assert(v1.live[n] == Region { addr: st as usize, size: g as usize });
    assert(b.addr <= st);
    assert(g >= need);
    assert(0 <= st && st + g <= usize::MAX);
    assert forall|x: int| u <= x < u + size implies #[trigger] covered(pre.blocks, x) && !covered(
        v1.blocks,
        x,
    ) by {
        assert(b.holds(x));
        assert(pre.blocks[k].holds(x));
    }
    assert forall|j: int, x: int| 0 <= j < v1.live.len() - 1 && u <= x < u + size implies !(
    #[trigger] v1.live[j].holds(x)) by {
        assert(v1.live[n].holds(x));
        if v1.live[j].holds(x) {
            assert(j == n);
        }
    }
}

/// Freeing a block straight after allocating it restores the allocator exactly: the
/// free list, the live blocks and the byte counter are as they were before the
/// allocation (after the lazy set-up).
pub proof fn lemma_deallocate_undoes_allocate(
    v0: HeapView,
    v1: HeapView,
    v2: HeapView,
    size: usize,
    align: usize,
    u: usize,
)
    requires
        v0.wf(),
        v1.wf(),
        v2.wf(),
        layout_ok(size, align),
        alloc_result(v0.init(), size, align, Some(u), v1),
        dealloc_result(v1, u, size, align, v2),
    ensures
        v2 == v0.init(),
{
    lemma_init_wf(v0);
    let pre = v0.init();
    let al = block_align(align);
    let need = block_need(size, align);
    let k = choose|k: int| #[trigger] is_first_fit(pre.blocks, k, need, al) && {
        let st = fit_start(pre.blocks[k], al);
        let g = granted(pre.blocks[k], need, al);
        &&& u == st + header_size_for(align)
        &&& v1.live == pre.live.push(Region { addr: st as usize, size: g as usize })
        &&& v1.used == wrap_add(pre.used, g)
        &&& forall|x: int|
            #[trigger] covered(v1.blocks, x) == (covered(pre.blocks, x) && !(st <= x < st + g))
        &&& same_frame(pre, v1)
    };
    let b = pre.blocks[k];
    let st = fit_start(b, al);
    let g = granted(b, need, al);
    let r = Region { addr: st as usize, size: g as usize };
    assert(header_size_for(align) >= 4) by {
        assert(HEADER_SIZE == 4);
    }
    assert(u != 0);
    let j = choose|j: int|
        0 <= j < v1.live.len() && #[trigger] v1.live[j].addr == u - header_size_for(align) && {
            &&& v2.live == v1.live.remove(j)
            &&& v2.used == wrap_sub(v1.used, v1.live[j].size as int)
            &&& forall|x: int|
                #[trigger] covered(v2.blocks, x) == (covered(v1.blocks, x) || v1.live[j].holds(x))
            &&& same_frame(v1, v2)
        };
    let last = pre.live.len() as int;
    assert(v1.live[last] == r);
    assert(v1.live[j].size >= MIN_FREE_SIZE);
    assert(v1.live[j].holds(st));
    assert(v1.live[last].holds(st));
    assert(j == last);
    assert(v2.live =~= pre.live);
    // the byte counter
    let m = usize::MAX as int + 1;
    vstd::arithmetic::div_mod::lemma_sub_mod_noop(pre.used + g, g, m);
    vstd::arithmetic::div_mod::lemma_small_mod(g as nat, m as nat);
    vstd::arithmetic::div_mod::lemma_small_mod(pre.used as nat, m as nat);
    assert(v2.used == pre.used);
    // the free list
    assert forall|x: int| covered(v2.blocks, x) == covered(pre.blocks, x) by {
        if st <= x < st + g {
            assert(b.holds(x));
            assert(covered(pre.blocks, x));
        }
    }
    lemma_canonical_unique(v2.blocks, pre.blocks);
}

/// First-fit allocator state over the heap pool `[heap_start, heap_end)`.
pub struct FreeList {
    blocks: Vec<Region>,
    live: Vec<Region>,
    used: usize,
    heap_start: usize,
    heap_end: usize,
    initialized: bool,
}

impl View for FreeList {
    type V = HeapView;

    closed spec fn view(&self) -> HeapView {
        HeapView {
            blocks: self.blocks@,
            live: self.live@,
            used: self.used,
            heap_start: self.heap_start,
            heap_end: self.heap_end,
            initialized: self.initialized,
        }
    }
}

/// The first position whose region starts above `r.addr` is the gap where `r` belongs.
proof fn lemma_insertion_gap(s: Seq<Region>, i: int, r: Region)
    requires
        canonical(s),
        0 <= i <= s.len(),
        r.size > 0,
        r.end() <= usize::MAX,
        forall|j: int| 0 <= j < i ==> (#[trigger] s[j]).addr <= r.addr,
        i < s.len() ==> s[i].addr > r.addr,
        forall|x: int| r.addr <= x < r.addr + r.size ==> !covered(s, x),
        forall|j: int| 0 <= j < s.len() ==> #[trigger] s[j].end() <= usize::MAX,
    ensures
        fits_gap(s, i, r),
{
    assert(r.holds(r.addr as int));
    assert forall|j: int| 0 <= j < i implies #[trigger] s[j].end() <= r.addr by {
        if s[j].end() > r.addr {
            assert(s[j].holds(r.addr as int));
            assert(covered(s, r.addr as int));
        }
    }
    assert forall|j: int| i <= j < s.len() implies r.end() <= #[trigger] s[j].addr by {
        if j > i {
            assert(s[i].end() < s[j].addr);
        }
        if s[j].addr < r.end() {
            assert(s[j].holds(s[j].addr as int));
            assert(covered(s, s[j].addr as int));
        }
    }
}

/// Splicing a well-placed region into a well-placed list keeps every node well placed.
proof fn lemma_splice_blocks_ok(s: Seq<Region>, i: int, r: Region, lo: usize, hi: usize)
    requires
        blocks_ok(s, lo, hi),
        fits_gap(s, i, r),
        r.addr % FREE_NODE_ALIGN == 0,
        r.size >= MIN_FREE_SIZE,
        lo <= r.addr,
        r.end() <= hi,
    ensures
        blocks_ok(splice(s, i, r), lo, hi),
{
    lemma_splice(s, i, r);
    let t = splice(s, i, r);
    let m = merge_lo(s, i, r);
    let h = merge_hi(s, i, r);
    assert(t.len() == m + 1 + (s.len() - h));
    assert forall|k: int| #![trigger t[k]] 0 <= k < t.len() implies {
        &&& t[k].addr % FREE_NODE_ALIGN == 0
        &&& t[k].size >= MIN_FREE_SIZE
        &&& lo <= t[k].addr
        &&& t[k].end() <= hi
    } by {
        if k < m {
            assert(t[k] == s[k]);
        } else if k > m {
            assert(t[k] == s[k - m - 1 + h]);
        } else {
            assert(t[k] == merged(s, i, r));
            if m < i {
                assert(s[i - 1].addr % FREE_NODE_ALIGN == 0);
                assert(s[i - 1].end() <= r.addr);
            }
            if h > i {
                assert(s[i].end() <= hi);
                assert(r.end() <= s[i].addr);
            }
        }
    }
}

/// In a canonical list, the regions a range placed in gap `i` touches are exactly
/// the ones it merges with.
proof fn lemma_touching(s: Seq<Region>, i: int, r: Region)
    requires
        canonical(s),
        fits_gap(s, i, r),
    ensures
        touching(s, r.addr as int, r.size as int) == (merge_hi(s, i, r) - merge_lo(s, i, r)),
{
    let a = r.addr as int;
    let e = r.end();
    if ends_at(s, a) {
        let j = choose|j: int| 0 <= j < s.len() && #[trigger] s[j].end() == a;
        if j >= i {
            assert(e <= s[j].addr);
            assert(s[j].size > 0);
        } else if j < i - 1 {
            assert(s[j].end() < s[i - 1].addr);
            assert(s[i - 1].size > 0);
            assert(s[i - 1].end() <= a);
        }
        assert(j == i - 1);
    }
    if i > 0 && s[i - 1].end() == a {
        assert(ends_at(s, a));
    }
    if starts_at(s, e) {
        let j = choose|j: int| 0 <= j < s.len() && #[trigger] s[j].addr == e;
        if j < i {
            assert(s[j].end() <= a);
            assert(s[j].size > 0);
            assert(r.size > 0);
        } else if j > i {
            assert(s[i].end() < s[j].addr);
            assert(s[i].size > 0);
            assert(e <= s[i].addr);
        }
        assert(j == i);
    }
    if i < s.len() && s[i].addr == e {
        assert(starts_at(s, e));
    }
}

impl FreeList {
    /// An allocator for the pool `[heap_start, heap_end)`, set up on first use.
    pub fn new(heap_start: usize, heap_end: usize) -> (r: FreeList)
        ensures
            r@.wf(),
            r@.blocks.len() == 0,
            r@.live.len() == 0,
            r@.used == 0,
            r@.heap_start == heap_start,
            r@.heap_end == heap_end,
            !r@.initialized,
    {
        let r = FreeList {
            blocks: Vec::new(),
            live: Vec::new(),
            used: 0,
            heap_start,
            heap_end,
            initialized: false,
        };
        proof {
            assert(total(r.live@) == 0);
            assert forall|x: int| !covered(r.blocks@, x) && !covered(r.live@, x) by {}
        }
        r
    }

    /// On first use, turns the whole pool into one free region (if it can hold a
    /// free node at an aligned start).
    pub fn ensure_init(&mut self)
        requires
            old(self)@.wf(),
        ensures
            final(self)@ == old(self)@.init(),
            final(self)@.wf(),
    {
        if self.initialized {
            return;
        }
        proof {
            lemma_init_wf(self@);
        }
        self.initialized = true;
        let size = self.heap_end.saturating_sub(self.heap_start);
        if size >= MIN_FREE_SIZE && self.heap_start % FREE_NODE_ALIGN == 0 {
            self.blocks.push(Region { addr: self.heap_start, size });
        }
        proof {
            let o = old(self)@.init();
            assert(self.blocks@ =~= o.blocks);
        }
    }

    /// Inserts the free region `[addr, addr + size)` into the address-ordered list,
    /// joining it with the regions that end where it starts or start where it ends.
    #[verifier::spinoff_prover]
    #[verifier::rlimit(40)]
    fn insert_free(&mut self, addr: usize, size: usize)
        requires
            blocks_ok(old(self).blocks@, old(self).heap_start, old(self).heap_end),
            size >= MIN_FREE_SIZE,
            addr % FREE_NODE_ALIGN == 0,
            old(self).heap_start <= addr,
            addr + size <= old(self).heap_end,
            forall|x: int| addr <= x < addr + size ==> !covered(old(self).blocks@, x),
        ensures
            blocks_ok(final(self).blocks@, final(self).heap_start, final(self).heap_end),
            forall|x: int|
                #[trigger] covered(final(self).blocks@, x) == (covered(old(self).blocks@, x) || (
                addr <= x < addr + size)),
            final(self).blocks@.len() == old(self).blocks@.len() + 1 - touching(
                old(self).blocks@,
                addr as int,
                size as int,
            ),
            final(self).live == old(self).live,
            final(self).used == old(self).used,
            final(self).heap_start == old(self).heap_start,
            final(self).heap_end == old(self).heap_end,
            final(self).initialized == old(self).initialized,
    {
        let ghost s = self.blocks@;
        let ghost r = Region { addr, size };
        let mut i: usize = 0;
        while i < self.blocks.len() && self.blocks[i].addr <= addr
            invariant
                self.blocks@ == s,
                0 <= i <= s.len(),
                forall|j: int| 0 <= j < i ==> (#[trigger] s[j]).addr <= addr,
            decreases s.len() - i,
        {
            i = i + 1;
        }
        proof {
            lemma_insertion_gap(s, i as int, r);
            lemma_splice(s, i as int, r);
        }
        let mut a = addr;
        let mut sz = size;
        let mut i = i;
        let ghost i0 = i as int;
        if i > 0 {
            let p = self.blocks[i - 1];
            if p.addr + p.size == a {
                a = p.addr;
                sz = sz + p.size;
                self.blocks.remove(i - 1);
                i = i - 1;
            }
        }
        proof {
            assert(i == merge_lo(s, i0, r));
            assert(self.blocks@ =~= s.subrange(0, i as int) + s.subrange(i0, s.len() as int));
            assert(a + sz == r.end());
        }
        if i < self.blocks.len() {
            let nb = self.blocks[i];
            proof {
                assert(nb == s[i0]);
            }
            if a + sz == nb.addr {
                sz = sz + nb.size;
                self.blocks.remove(i);
            }
        }
        proof {
            let t = self.blocks@;
            assert(t =~= s.subrange(0, merge_lo(s, i0, r)) + s.subrange(
                merge_hi(s, i0, r),
                s.len() as int,
            ));
            assert(Region { addr: a, size: sz } == merged(s, i0, r));
        }
        self.blocks.insert(i, Region { addr: a, size: sz });
        proof {
            assert(self.blocks@ =~= splice(s, i0, r));
            lemma_splice_blocks_ok(s, i0, r, self.heap_start, self.heap_end);
            lemma_touching(s, i0, r);
        }
    }
    /// Unlinks free region `k`, hands out `[start, start + need)` from it (or up to
    /// its end, when the tail would be too small to stay free) and puts the front gap
    /// and the tail back on the free list. Returns the bytes taken.
    #[verifier::spinoff_prover]
    #[verifier::rlimit(40)]
    fn take_block(&mut self, k: usize, start: usize, need: usize) -> (g: usize)
        requires
            old(self)@.wf(),
            k < old(self)@.blocks.len(),
            start % FREE_NODE_ALIGN == 0,
            old(self)@.blocks[k as int].addr <= start,
            start + need <= old(self)@.blocks[k as int].end(),
            start == old(self)@.blocks[k as int].addr || start - old(self)@.blocks[k as int].addr
                >= MIN_FREE_SIZE,
            need >= MIN_FREE_SIZE,
            need % FREE_NODE_ALIGN == 0,
        ensures
            final(self)@.wf(),
            g == (if old(self)@.blocks[k as int].end() - (start + need) >= MIN_FREE_SIZE {
                need as int
            } else {
                old(self)@.blocks[k as int].end() - start
            }),
            final(self)@.live == old(self)@.live.push(Region { addr: start, size: g }),
            final(self)@.used == wrap_add(old(self)@.used, g as int),
            forall|x: int|
                #[trigger] covered(final(self)@.blocks, x) == (covered(old(self)@.blocks, x) && !(
                start <= x < start + g)),
            same_frame(old(self)@, final(self)@),
    {
        let ghost pre = self@;
        let b = self.blocks[k];
        let block_end = b.addr + b.size;
        let front = start - b.addr;
        let end = start + need;
        let tail = block_end - end;
        proof {
            lemma_canonical_disjoint(pre.blocks);
            lemma_blocks_ok_remove(pre.blocks, k as int, pre.heap_start, pre.heap_end);
            assert forall|x: int| covered(pre.blocks.remove(k as int), x) == (covered(pre.blocks, x)
                && !b.holds(x)) by {
                lemma_covered_remove(pre.blocks, k as int, x);
            }
        }
        self.blocks.remove(k);
        if front >= MIN_FREE_SIZE {
            self.insert_free(b.addr, front);
        }
        let ghost mid = self.blocks@;
        proof {
            assert forall|x: int| #[trigger] covered(mid, x) == (covered(pre.blocks, x) && !(start <= x
                < block_end)) by {
                lemma_covered_remove(pre.blocks, k as int, x);
                if b.addr <= x < block_end {
                    assert(pre.blocks[k as int].holds(x));
                }
            }
        }
        let g = if tail >= MIN_FREE_SIZE {
            self.insert_free(end, tail);
            need
        } else {
            need + tail
        };
        let r = Region { addr: start, size: g };
        proof {
            assert forall|x: int| r.holds(x) implies !covered(pre.live, x) by {
                assert(b.holds(x));
                assert(covered(pre.blocks, x));
            }
            lemma_live_ok_push(pre.live, r, pre.heap_start, pre.heap_end);
            lemma_total_nonneg(pre.live);
            lemma_wrap_add(pre.used, total(pre.live), g);
            assert(pre.live.push(r).drop_last() =~= pre.live);
        }
        self.live.push(r);
        self.used = self.used.wrapping_add(g);
        proof {
            let post = self@;
            assert forall|x: int| #[trigger] covered(post.blocks, x) == (covered(pre.blocks, x) && !(
            start <= x < start + g)) by {
                assert(covered(mid, x) == (covered(pre.blocks, x) && !(start <= x < block_end)));
                if end <= x < block_end {
                    assert(pre.blocks[k as int].holds(x));
                }
            }
            assert forall|x: int|
                #![trigger covered(post.blocks, x)]
                #![trigger covered(post.live, x)]
                !(covered(post.blocks, x) && covered(post.live, x)) && ((covered(post.blocks, x)
                    || covered(post.live, x)) <==> (post.pool() && post.heap_start <= x
                    < post.heap_end)) by {
                lemma_covered_push(pre.live, r, x);
                if r.holds(x) {
                    assert(b.holds(x));
                    assert(covered(pre.blocks, x));
                }
            }
        }
        g
    }

    /// First-fit allocation of `(size, align)`: returns the payload address, or `None`
    /// when no free region can hold the block.
    pub fn allocate(&mut self, size: usize, align: usize) -> (ret: Option<usize>)
        requires
            old(self)@.wf(),
            layout_ok(size, align),
            align_reachable(old(self)@.init().blocks, block_need(size, align), block_align(align)),
        ensures
            final(self)@.wf(),
            alloc_result(old(self)@.init(), size, align, ret, final(self)@),
            ret matches Some(u) ==> u % align == 0,
    {
        self.ensure_init();
        let (need, header_size, al) = match block_layout(size, align) {
            Some(t) => t,
            None => return None,
        };
        let ghost pre = self@;
        proof {
            let a = al;
            assert(a % 4 == 0) by (bit_vector)
                requires a >= 4, (a & ((a - 1) as usize)) == 0;
        }
        let mut k: usize = 0;
        while k < self.blocks.len()
            invariant
                self@ == pre,
                pre == old(self)@.init(),
                pre.wf(),
                layout_ok(size, align),
                need == block_need(size, align),
                header_size == header_size_for(align),
                al == block_align(align),
                is_pow2(al),
                al >= 4,
                need >= MIN_FREE_SIZE,
                header_size % al == 0,
                al % align == 0,
                al % 4 == 0,
                need % 4 == 0,
                align_reachable(pre.blocks, need as int, al as int),
                0 <= k <= pre.blocks.len(),
                forall|j: int| 0 <= j < k ==> !fits(#[trigger] pre.blocks[j], need as int, al as int),
            decreases pre.blocks.len() - k,
        {
            let b = self.blocks[k];
            let block_end = b.addr + b.size;
            proof {
                assert(pre.blocks[k as int].addr + al - 1 <= usize::MAX);
            }
            let start = align_up(b.addr, al);
            let room = match start.checked_add(need) {
                Some(e) => e <= block_end,
                None => false,
            };
            if room {
                let front = start - b.addr;
                if front == 0 || front >= MIN_FREE_SIZE {
                    proof {
                        assert(fits(b, need as int, al as int));
                        assert(start % FREE_NODE_ALIGN == 0) by {
                            lemma_aligned_sum(start as int, 0, al as int, 4);
                        }
                    }
                    let g = self.take_block(k, start, need);
                    let user = start + header_size;
                    proof {
                        assert(is_first_fit(pre.blocks, k as int, need as int, al as int));
                        let post = self@;
                        assert(fit_start(pre.blocks[k as int], al as int) == start);
                        assert(granted(pre.blocks[k as int], need as int, al as int) == g);
                        assert(alloc_result(pre, size, align, Some(user), post));
                        assert(user % align == 0) by {
                            lemma_aligned_sum(start as int, header_size as int, al as int, align as int);
                        }
                    }
                    return Some(user);
                }
            }
            k = k + 1;
        }
        None
    }

    /// Returns the block whose payload is at `ptr` to the free list. A null pointer is
    /// ignored.
    pub fn deallocate(&mut self, ptr: usize, size: usize, align: usize)
        requires
            old(self)@.wf(),
            layout_ok(size, align),
            ptr == 0 || has_live_at(old(self)@.live, ptr - header_size_for(align)),
        ensures
            final(self)@.wf(),
            dealloc_result(old(self)@, ptr, size, align, final(self)@),
    {
        if ptr == 0 {
            return;
        }
        proof {
            let j = choose|j: int| 0 <= j < self@.live.len() && #[trigger] self@.live[j].addr == ptr
                - header_size_for(align);
            assert(self@.live[j].size >= MIN_FREE_SIZE);
            assert(self@.live[j].holds(self@.live[j].addr as int));
            assert(covered(self@.live, self@.live[j].addr as int));
        }
        self.ensure_init();
        let (_, header_size, _) = match block_layout(size, align) {
            Some(t) => t,
            None => return ,
        };
        let start = ptr - header_size;
        let ghost pre = self@;
        let mut j: usize = 0;
        while j < self.live.len() && self.live[j].addr != start
            invariant
                self@ == pre,
                has_live_at(pre.live, start as int),
                0 <= j <= pre.live.len(),
                forall|i: int| 0 <= i < j ==> (#[trigger] pre.live[i]).addr != start,
            decreases pre.live.len() - j,
        {
            j = j + 1;
        }
        proof {
            let w = choose|i: int| 0 <= i < pre.live.len() && #[trigger] pre.live[i].addr == start;
            assert(w >= j);
            assert(pre.live[j as int].addr == start);
        }
        let blk = self.live.remove(j);
        proof {
            lemma_live_ok_remove(pre.live, j as int, pre.heap_start, pre.heap_end);
            lemma_total_remove(pre.live, j as int);
            lemma_total_nonneg(pre.live);
            lemma_wrap_sub(pre.used, total(pre.live), blk.size);
            assert(blk == pre.live[j as int]);
            assert forall|x: int| start <= x < start + blk.size implies !covered(pre.blocks, x) by {
                assert(pre.live[j as int].holds(x));
                assert(covered(pre.live, x));
            }
        }
        self.used = self.used.wrapping_sub(blk.size);
        self.insert_free(start, blk.size);
        proof {
            let post = self@;
            assert forall|x: int|
                #![trigger covered(post.blocks, x)]
                #![trigger covered(post.live, x)]
                !(covered(post.blocks, x) && covered(post.live, x)) && ((covered(post.blocks, x)
                    || covered(post.live, x)) <==> (post.pool() && post.heap_start <= x
                    < post.heap_end)) by {
                lemma_covered_remove(pre.live, j as int, x);
                if blk.holds(x) {
                    assert(pre.live[j as int].holds(x));
                    assert(covered(pre.live, x));
                }
            }
            assert(pre.live[j as int].addr == ptr - header_size_for(align));
        }
    }

    /// The free regions in address order.
    pub fn free_regions(&self) -> (r: Vec<Region>)
        ensures
            r@ == self@.blocks,
    {
        let mut r: Vec<Region> = Vec::new();
        let mut i: usize = 0;
        while i < self.blocks.len()
            invariant
                0 <= i <= self.blocks@.len(),
                r@ == self.blocks@.subrange(0, i as int),
            decreases self.blocks@.len() - i,
        {
            r.push(self.blocks[i]);
            i = i + 1;
            proof {
                assert(r@ =~= self.blocks@.subrange(0, i as int));
            }
        }
        proof {
            assert(r@ =~= self.blocks@);
        }
        r
    }

    /// The live blocks (header address and recorded size), oldest first.
    pub fn live_blocks(&self) -> (r: Vec<Region>)
        ensures
            r@ == self@.live,
    {
        let mut r: Vec<Region> = Vec::new();
        let mut i: usize = 0;
        while i < self.live.len()
            invariant
                0 <= i <= self.live@.len(),
                r@ == self.live@.subrange(0, i as int),
            decreases self.live@.len() - i,
        {
            r.push(self.live[i]);
            i = i + 1;
            proof {
                assert(r@ =~= self.live@.subrange(0, i as int));
            }
        }
        proof {
            assert(r@ =~= self.live@);
        }
        r
    }

    /// Bytes reserved by live blocks, headers included.
    pub fn heap_used(&self) -> (r: usize)
        ensures
            r == self@.used,
    {
        self.used
    }

    /// `ptr` is the payload address of a live block of layout `(size, align)`, so that
    /// it may be handed to `deallocate`.
    pub fn is_allocated(&self, ptr: usize, size: usize, align: usize) -> (r: bool)
        requires
            layout_ok(size, align),
        ensures
            r == (ptr != 0 && has_live_at(self@.live, ptr - header_size_for(align))),
    {
        if ptr == 0 {
            return false;
        }
        let (_, header_size, _) = match block_layout(size, align) {
            Some(t) => t,
            None => return false,
        };
        if ptr < header_size {
            return false;
        }
        let start = ptr - header_size;
        let mut j: usize = 0;
        while j < self.live.len()
            invariant
                0 <= j <= self.live@.len(),
                start == ptr - header_size_for(align),
                forall|i: int| 0 <= i < j ==> (#[trigger] self.live@[i]).addr != start,
            decreases self.live@.len() - j,
        {
            if self.live[j].addr == start {
                proof {
                    assert(self@.live[j as int].addr == ptr - header_size_for(align));
                }
                return true;
            }
            j = j + 1;
        }
        false
    }

}

} // verus!
