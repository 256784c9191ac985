//! Address ranges and the canonical form of an address-ordered free list.
use vstd::prelude::*;

verus! {

/// A contiguous range of heap addresses `[addr, addr + size)`: a free region, or a
/// live block whose header records `size`.
#[derive(Clone, Copy, Debug, PartialEq, Eq, Structural)]
pub struct Region {
    pub addr: usize,
    pub size: usize,
}

impl Region {
    /// One past the last address of the region.
    pub open spec fn end(self) -> int {
        self.addr + self.size
    }

    /// The region contains address `x`.
    pub open spec fn holds(self, x: int) -> bool {
        self.addr <= x < self.addr + self.size
    }
}

/// Some region of `s` contains address `x`.
pub open spec fn covered(s: Seq<Region>, x: int) -> bool {
    exists|i: int| 0 <= i < s.len() && #[trigger] s[i].holds(x)
}

/// `s` is sorted by address, every region is non-empty, and any two regions are
/// separated by at least one address that neither holds (so no two are adjacent).
pub open spec fn canonical(s: Seq<Region>) -> bool {
    &&& forall|i: int| 0 <= i < s.len() ==> #[trigger] s[i].size > 0
    &&& forall|i: int, j: int| #![trigger s[i], s[j]] 0 <= i < j < s.len() ==> s[i].end() < s[j].addr
}

/// No two regions of `s` share an address.
pub open spec fn pairwise_disjoint(s: Seq<Region>) -> bool {
    forall|i: int, j: int, x: int|
        #![trigger s[i].holds(x), s[j].holds(x)]
        0 <= i < s.len() && 0 <= j < s.len() && s[i].holds(x) && s[j].holds(x) ==> i == j
}

/// A slice of a canonical list is canonical.
pub proof fn lemma_canonical_subrange(s: Seq<Region>, lo: int, hi: int)
    requires
        canonical(s),
        0 <= lo <= hi <= s.len(),
    ensures
        canonical(s.subrange(lo, hi)),
{
    let t = s.subrange(lo, hi);
    assert forall|i: int| 0 <= i < t.len() implies #[trigger] t[i].size > 0 by {
        assert(t[i] == s[lo + i]);
    }
    assert forall|i: int, j: int| #![trigger t[i], t[j]] 0 <= i < j < t.len() implies t[i].end() < t[j].addr by {
        assert(t[i] == s[lo + i]);
        assert(t[j] == s[lo + j]);
    }
}

/// In a canonical list, a region that holds `x` is the only one that does.
pub proof fn lemma_canonical_holder_unique(s: Seq<Region>, i: int, j: int, x: int)
    requires
        canonical(s),
        0 <= i < s.len(),
        0 <= j < s.len(),
        s[i].holds(x),
        s[j].holds(x),
    ensures
        i == j,
{
    if i < j {
        assert(s[i].end() < s[j].addr);
    } else if j < i {
        assert(s[j].end() < s[i].addr);
    }
}

/// A canonical list has no two regions sharing an address.
pub proof fn lemma_canonical_disjoint(s: Seq<Region>)
    requires
        canonical(s),
    ensures
        pairwise_disjoint(s),
{
    assert forall|i: int, j: int, x: int|
        #![trigger s[i].holds(x), s[j].holds(x)]
        0 <= i < s.len() && 0 <= j < s.len() && s[i].holds(x) && s[j].holds(x) implies i == j by {
        lemma_canonical_holder_unique(s, i, j, x);
    }
}

/// A canonical list is determined by the set of addresses it covers.
pub proof fn lemma_canonical_unique(s1: Seq<Region>, s2: Seq<Region>)
    requires
        canonical(s1),
        canonical(s2),
        forall|x: int| covered(s1, x) == covered(s2, x),
    ensures
        s1 == s2,
    decreases s1.len(),
{
    if s1.len() == 0 {
        if s2.len() > 0 {
            let a = s2[0].addr as int;
            assert(s2[0].holds(a));
            assert(covered(s2, a));
        }
        assert(s1 =~= s2);
    } else if s2.len() == 0 {
        let a = s1[0].addr as int;
        assert(s1[0].holds(a));
        assert(covered(s1, a));
    } else {
        let a1 = s1[0].addr as int;
        let a2 = s2[0].addr as int;
        assert(s2[0].holds(a2));
        assert(covered(s2, a2));
        assert(covered(s1, a2));
        let i1 = choose|i: int| 0 <= i < s1.len() && #[trigger] s1[i].holds(a2);
        if i1 > 0 {
            assert(s1[0].end() < s1[i1].addr);
        }
        assert(a1 <= a2);
        assert(s1[0].holds(a1));
        assert(covered(s1, a1));
        assert(covered(s2, a1));
        let i2 = choose|i: int| 0 <= i < s2.len() && #[trigger] s2[i].holds(a1);
        if i2 > 0 {
            assert(s2[0].end() < s2[i2].addr);
        }
        assert(a2 <= a1);
        let e1 = s1[0].end();
        let e2 = s2[0].end();
        if e1 < e2 {
            assert(s2[0].holds(e1));
            assert(covered(s2, e1));
            assert(covered(s1, e1));
            let j = choose|i: int| 0 <= i < s1.len() && #[trigger] s1[i].holds(e1);
            if j > 0 {
                assert(s1[0].end() < s1[j].addr);
            }
            assert(false);
        }
        if e2 < e1 {
            assert(s1[0].holds(e2));
            assert(covered(s1, e2));
            assert(covered(s2, e2));
            let j = choose|i: int| 0 <= i < s2.len() && #[trigger] s2[i].holds(e2);
            if j > 0 {
                assert(s2[0].end() < s2[j].addr);
            }
            assert(false);
        }
        assert(s1[0] == s2[0]);
        let t1 = s1.subrange(1, s1.len() as int);
        let t2 = s2.subrange(1, s2.len() as int);
        lemma_canonical_subrange(s1, 1, s1.len() as int);
        lemma_canonical_subrange(s2, 1, s2.len() as int);
        assert forall|x: int| covered(t1, x) == covered(t2, x) by {
            if covered(t1, x) {
                let i = choose|i: int| 0 <= i < t1.len() && #[trigger] t1[i].holds(x);
                assert(t1[i] == s1[i + 1]);
                assert(s1[0].end() < s1[i + 1].addr);
                assert(s1[i + 1].holds(x));
                assert(covered(s1, x));
                assert(covered(s2, x));
                let j = choose|j: int| 0 <= j < s2.len() && #[trigger] s2[j].holds(x);
                assert(j != 0);
                assert(t2[j - 1] == s2[j]);
                assert(t2[j - 1].holds(x));
            }
            if covered(t2, x) {
                let i = choose|i: int| 0 <= i < t2.len() && #[trigger] t2[i].holds(x);
                assert(t2[i] == s2[i + 1]);
                assert(s2[0].end() < s2[i + 1].addr);
                assert(s2[i + 1].holds(x));
                assert(covered(s2, x));
                assert(covered(s1, x));
                let j = choose|j: int| 0 <= j < s1.len() && #[trigger] s1[j].holds(x);
                assert(j != 0);
                assert(t1[j - 1] == s1[j]);
                assert(t1[j - 1].holds(x));
            }
        }
        lemma_canonical_unique(t1, t2);
        assert(s1 =~= s2) by {
            assert forall|k: int| 0 <= k < s1.len() implies s1[k] == s2[k] by {
                if k > 0 {
                    assert(s1[k] == t1[k - 1]);
                    assert(s2[k] == t2[k - 1]);
                }
            }
        }
    }
}

/// Index of the first region that merges with `r` when `r` is placed at position `i`.
pub open spec fn merge_lo(s: Seq<Region>, i: int, r: Region) -> int {
    if i > 0 && s[i - 1].end() == r.addr {
        i - 1
    } else {
        i
    }
}

/// One past the index of the last region that merges with `r` at position `i`.
pub open spec fn merge_hi(s: Seq<Region>, i: int, r: Region) -> int {
    if i < s.len() && r.end() == s[i].addr {
        i + 1
    } else {
        i
    }
}

/// The region `r` placed at position `i`, joined with the neighbours it touches.
pub open spec fn merged(s: Seq<Region>, i: int, r: Region) -> Region {
    let a = if merge_lo(s, i, r) < i { s[i - 1].addr as int } else { r.addr as int };
    let e = if merge_hi(s, i, r) > i { s[i].end() } else { r.end() };
    Region { addr: a as usize, size: (e - a) as usize }
}

/// `s` with `r` placed at position `i` and coalesced with its adjacent neighbours.
pub open spec fn splice(s: Seq<Region>, i: int, r: Region) -> Seq<Region> {
    s.subrange(0, merge_lo(s, i, r)) + seq![merged(s, i, r)] + s.subrange(
        merge_hi(s, i, r),
        s.len() as int,
    )
}

/// `r` sits in the gap before position `i` of `s`.
pub open spec fn fits_gap(s: Seq<Region>, i: int, r: Region) -> bool {
    &&& 0 <= i <= s.len()
    &&& r.size > 0
    &&& r.end() <= usize::MAX
    &&& forall|j: int| 0 <= j < i ==> #[trigger] s[j].end() <= r.addr
    &&& forall|j: int| i <= j < s.len() ==> r.end() <= #[trigger] s[j].addr
    &&& forall|j: int| 0 <= j < s.len() ==> #[trigger] s[j].end() <= usize::MAX
}

/// Placing a region into a gap of a canonical list and coalescing it with its
/// neighbours yields a canonical list covering the old addresses and the region's.
pub proof fn lemma_splice(s: Seq<Region>, i: int, r: Region)
    requires
        canonical(s),
        fits_gap(s, i, r),
    ensures
        canonical(splice(s, i, r)),
        forall|x: int| #[trigger] covered(splice(s, i, r), x) == (covered(s, x) || r.holds(x)),
        splice(s, i, r).len() == s.len() + 1 - (merge_hi(s, i, r) - merge_lo(s, i, r)),
{
    let lo = merge_lo(s, i, r);
    let hi = merge_hi(s, i, r);
    let m = merged(s, i, r);
    let t = splice(s, i, r);
    let n = s.len() as int;
    let a = if lo < i { s[i - 1].addr as int } else { r.addr as int };
    let e = if hi > i { s[i].end() } else { r.end() };
    if lo < i {
        assert(s[i - 1].end() <= r.addr);
        assert(s[i - 1].size > 0);
    }
    if hi > i {
        assert(s[i].size > 0);
        assert(s[i].end() <= usize::MAX);
    }
    assert(a <= r.addr && r.end() <= e);
    assert(m.addr == a && m.end() == e);
    assert(t.len() == lo + 1 + (n - hi));
    assert forall|k: int| 0 <= k < lo implies #[trigger] t[k] == s[k] by {}
    assert(t[lo] == m);
    assert forall|k: int| lo < k < t.len() implies #[trigger] t[k] == s[k - lo - 1 + hi] by {}
    // canonical
    assert forall|p: int| 0 <= p < t.len() implies #[trigger] t[p].size > 0 by {
        if p < lo {
            assert(t[p] == s[p]);
        } else if p > lo {
            assert(t[p] == s[p - lo - 1 + hi]);
        }
    }
    assert forall|p: int, q: int| #![trigger t[p], t[q]] 0 <= p < q < t.len() implies t[p].end()
        < t[q].addr by {
        if q < lo {
            assert(t[p] == s[p] && t[q] == s[q]);
        } else if q == lo {
            assert(t[p] == s[p]);
            if lo < i {
                assert(s[p].end() < s[i - 1].addr);
            } else {
                assert(s[p].end() <= r.addr);
                if p < i - 1 {
                    assert(s[p].end() < s[i - 1].addr);
                    assert(s[i - 1].end() <= r.addr);
                } else {
                    assert(p == i - 1);
                }
            }
        } else {
            let qq = q - lo - 1 + hi;
            assert(t[q] == s[qq]);
            assert(hi <= qq < n);
            if p < lo {
                assert(t[p] == s[p]);
                assert(p < qq);
                assert(s[p].end() < s[qq].addr);
            } else if p == lo {
                if hi > i {
                    assert(i < qq);
                    assert(s[i].end() < s[qq].addr);
                } else {
                    assert(r.end() <= s[qq].addr);
                    if qq > i {
                        assert(s[i].end() < s[qq].addr);
                        assert(r.end() <= s[i].addr);
                        assert(s[i].size > 0);
                    }
                }
            } else {
                let pp = p - lo - 1 + hi;
                assert(t[p] == s[pp]);
                assert(pp < qq);
            }
        }
    }
    // coverage
    assert forall|x: int| #[trigger] covered(t, x) == (covered(s, x) || r.holds(x)) by {
        if covered(t, x) {
            let k = choose|k: int| 0 <= k < t.len() && #[trigger] t[k].holds(x);
            if k < lo {
                assert(t[k] == s[k]);
                assert(s[k].holds(x));
            } else if k > lo {
                assert(t[k] == s[k - lo - 1 + hi]);
                assert(s[k - lo - 1 + hi].holds(x));
            } else {
                if lo < i && x < s[i - 1].end() {
                    assert(s[i - 1].holds(x));
                } else if x < r.end() {
                    assert(r.holds(x));
                } else {
                    assert(hi > i);
                    assert(s[i].holds(x));
                }
            }
        }
        if covered(s, x) {
            let j = choose|j: int| 0 <= j < s.len() && #[trigger] s[j].holds(x);
            if j < lo {
                assert(t[j] == s[j]);
                assert(t[j].holds(x));
            } else if j >= hi {
                let k = j - hi + lo + 1;
                assert(t[k] == s[j]);
                assert(t[k].holds(x));
            } else {
                if j < i {
                    assert(j == i - 1);
                    assert(lo < i);
                } else {
                    assert(j == i);
                    assert(hi > i);
                }
                assert(t[lo].holds(x));
            }
        }
        if r.holds(x) {
            assert(t[lo].holds(x));
        }
    }
}

/// Removing a region from a canonical list leaves it canonical.
pub proof fn lemma_canonical_remove(s: Seq<Region>, k: int)
    requires
        canonical(s),
        0 <= k < s.len(),
    ensures
        canonical(s.remove(k)),
{
    let t = s.remove(k);
    assert forall|i: int| 0 <= i < t.len() implies #[trigger] t[i].size > 0 by {
        let oi = if i < k { i } else { i + 1 };
        assert(t[i] == s[oi]);
    }
    assert forall|i: int, j: int| #![trigger t[i], t[j]] 0 <= i < j < t.len() implies t[i].end() < t[j].addr by {
        let oi = if i < k { i } else { i + 1 };
        let oj = if j < k { j } else { j + 1 };
        assert(t[i] == s[oi]);
        assert(t[j] == s[oj]);
    }
}

/// Total size of the regions of `s`.
pub open spec fn total(s: Seq<Region>) -> int
    decreases s.len(),
{
    if s.len() == 0 {
        0
    } else {
        total(s.drop_last()) + s.last().size
    }
}

/// The total size of a list of regions is never negative.
pub proof fn lemma_total_nonneg(s: Seq<Region>)
    ensures
        total(s) >= 0,
    decreases s.len(),
{
    if s.len() > 0 {
        lemma_total_nonneg(s.drop_last());
    }
}

/// Removing one region takes its size off the total.
pub proof fn lemma_total_remove(s: Seq<Region>, k: int)
    requires
        0 <= k < s.len(),
    ensures
        total(s.remove(k)) == total(s) - s[k].size,
    decreases s.len(),
{
    if k == s.len() - 1 {
        assert(s.remove(k) =~= s.drop_last());
    } else {
        lemma_total_remove(s.drop_last(), k);
        assert(s.remove(k).drop_last() =~= s.drop_last().remove(k));
        assert(s.remove(k).last() == s.last());
    }
}

} // verus!
