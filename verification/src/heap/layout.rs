//! Block geometry of the allocator on the 32-bit Cortex-M7 target.
use vstd::prelude::*;

verus! {

/// Alignment of an in-place free node (`usize` + `Option<NonNull<_>>` on a 32-bit target).
pub const FREE_NODE_ALIGN: usize = 4;

/// Size of an in-place free node on a 32-bit target.
pub const FREE_NODE_SIZE: usize = 8;

/// Smallest free region the allocator keeps: it must hold a free node.
pub const MIN_FREE_SIZE: usize = 8;

/// Size of the header at the start of every live block (one `usize`).
pub const HEADER_SIZE: usize = 4;

/// Alignment of the live-block header.
pub const HEADER_ALIGN: usize = 4;

/// `a` is a power of two.
pub open spec fn is_pow2(a: usize) -> bool {
    a > 0 && (a & ((a - 1) as usize)) == 0
}

/// The least multiple of `a` that is at least `v`.
pub open spec fn align_up_spec(v: int, a: int) -> int {
    v + (a - v % a) % a
}

/// A multiple of `a` in `[v, v + a)` is the one `align_up_spec` names.
pub proof fn lemma_align_up_unique(v: int, a: int, r: int)
    requires
        a > 0,
        v >= 0,
        r % a == 0,
        v <= r < v + a,
    ensures
        r == align_up_spec(v, a),
{
    let k = v % a;
    let q = v / a;
    vstd::arithmetic::div_mod::lemma_fundamental_div_mod(v, a);
    vstd::arithmetic::div_mod::lemma_fundamental_div_mod(r, a);
    let p = r / a;
    assert(r == a * p);
    assert(v == a * q + k);
    assert(0 <= k < a);
    // a*q + k <= a*p < a*q + k + a  ==> p == q (k == 0) or p == q + 1 (k > 0)
    assert(p == q || p == q + 1) by (nonlinear_arith)
        requires
            a > 0,
            0 <= k < a,
            a * q + k <= a * p,
            a * p < a * q + k + a,
    {
        if p < q {
            assert(a * p <= a * q - a) by (nonlinear_arith) requires a > 0, p < q;
        }
        if p > q + 1 {
            assert(a * p >= a * q + 2 * a) by (nonlinear_arith) requires a > 0, p > q + 1;
        }
    }
    if k == 0 {
        assert(p == q) by (nonlinear_arith) requires a > 0, a * q <= a * p, a * p < a * q + a, p == q || p == q + 1;
    } else {
        assert(p == q + 1) by (nonlinear_arith) requires a > 0, k > 0, a * q + k <= a * p, p == q || p == q + 1;
        assert(r == a * q + a) by (nonlinear_arith) requires r == a * p, p == q + 1;
        vstd::arithmetic::div_mod::lemma_small_mod((a - k) as nat, a as nat);
    }
    if k == 0 {
        vstd::arithmetic::div_mod::lemma_mod_self_0(a);
    }
}

/// Rounds `value` up to a multiple of the power of two `align`.
#[verifier::rlimit(100)]
pub fn align_up(value: usize, align: usize) -> (r: usize)
    requires
        is_pow2(align),
        value + align - 1 <= usize::MAX,
    ensures
        r == align_up_spec(value as int, align as int),
        r % align == 0,
        value <= r < value + align,
{
    let m: usize = align - 1;
    let r: usize = (value + m) & !m;
    assert((r & m) == 0 && value <= r && r <= value + m) by (bit_vector)
        requires
            (align & m) == 0,
            m == align - 1,
            align > 0,
            ((value + m) as usize) >= value,
            r == ((value + m) as usize) & !m;
    assert(r % align == 0) by (bit_vector)
        requires
            (r & m) == 0,
            (align & m) == 0,
            m == align - 1,
            align > 0;
    proof {
        lemma_align_up_unique(value as int, align as int, r as int);
    }
    r
}

/// `(size, align)` satisfies the invariant of `core::alloc::Layout`: the alignment is a
/// power of two and the size rounded up to it does not exceed `isize::MAX`.
pub open spec fn layout_ok(size: usize, align: usize) -> bool {
    is_pow2(align) && size + align - 1 <= isize::MAX
}

/// Alignment of a block: the layout's, but at least the header's.
pub open spec fn block_align(align: usize) -> int {
    if align >= HEADER_ALIGN {
        align as int
    } else {
        HEADER_ALIGN as int
    }
}

/// Bytes from the start of a block to the user payload: the header, padded so that
/// the payload keeps the block's alignment.
pub open spec fn header_size_for(align: usize) -> int {
    align_up_spec(HEADER_SIZE as int, block_align(align))
}

/// Total size of a block for `(size, align)`: header plus payload (at least one byte),
/// rounded up to the free-node alignment, and never below the smallest free region so
/// that the block can rejoin the free list.
pub open spec fn block_need(size: usize, align: usize) -> int {
    let payload = if size >= 1 { size as int } else { 1 };
    let t = align_up_spec(header_size_for(align) + payload, FREE_NODE_ALIGN as int);
    if t >= MIN_FREE_SIZE {
        t
    } else {
        MIN_FREE_SIZE as int
    }
}

/// Returns `(total block size, header size, block alignment)` for a user layout.
///
/// The block is aligned to the returned alignment and starts with the header; the
/// payload begins at `block + header size` and is therefore aligned as well.
pub fn block_layout(size: usize, align: usize) -> (r: Option<(usize, usize, usize)>)
    requires
        layout_ok(size, align),
    ensures
        r == Some(
            (block_need(size, align) as usize, header_size_for(align) as usize, block_align(align) as usize),
        ),
        block_need(size, align) >= MIN_FREE_SIZE,
        block_need(size, align) % (FREE_NODE_ALIGN as int) == 0,
        block_need(size, align) >= header_size_for(align) + size,
        header_size_for(align) % block_align(align) == 0,
        header_size_for(align) >= HEADER_SIZE,
        is_pow2(block_align(align) as usize),
        block_align(align) >= HEADER_ALIGN,
        block_align(align) % (align as int) == 0,
        block_need(size, align) <= usize::MAX,
{
    let al: usize = if align >= HEADER_ALIGN { align } else { HEADER_ALIGN };
    proof {
        assert((4usize & 3usize) == 0) by (bit_vector);
        if align < HEADER_ALIGN {
            let a = align;
            assert(a == 1 || a == 2) by (bit_vector)
                requires a > 0, (a & ((a - 1) as usize)) == 0, a < 4;
        }
    }
    let header_size = align_up(HEADER_SIZE, al);
    let payload: usize = if size >= 1 { size } else { 1 };
    let total = match header_size.checked_add(payload) {
        Some(t) => t,
        None => return None,
    };
    let total = align_up(total, FREE_NODE_ALIGN);
    let total: usize = if total >= MIN_FREE_SIZE { total } else { MIN_FREE_SIZE };
    Some((total, header_size, al))
}

} // verus!
