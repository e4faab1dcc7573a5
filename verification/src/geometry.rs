//! Byte geometry of a single page: alignment arithmetic and the reservation
//! check of the bump allocator.
//!
//! Addresses are page-relative byte offsets. A page's backing storage is
//! modeled by its capacity alone; the arena keeps the allocated values in a
//! separate slot sequence.

use vstd::arithmetic::div_mod::lemma_mod_division_less_than_divisor;
use vstd::arithmetic::div_mod::lemma_mod_self_0;
use vstd::arithmetic::div_mod::lemma_small_mod;
use vstd::prelude::*;

verus! {

/// How many padding bytes bring `offset` up to the next multiple of `align`.
pub open spec fn align_pad(offset: int, align: int) -> int {
    (align - offset % align) % align
}

/// The first offset at or after `offset` that is a multiple of `align`.
pub open spec fn aligned_up(offset: int, align: int) -> int {
    offset + align_pad(offset, align)
}

/// A reservation of `size` bytes at alignment `align`, attempted at `offset`,
/// stays within a page of `capacity` bytes.
pub open spec fn fits(offset: int, size: int, align: int, capacity: int) -> bool {
    aligned_up(offset, align) + size <= capacity
}

/// `align_pad` is the distance to a multiple of `align`, and is less than `align`.
pub proof fn lemma_align_pad_bounds(offset: int, align: int)
    requires
        0 <= offset,
        1 <= align,
    ensures
        0 <= align_pad(offset, align) < align,
        aligned_up(offset, align) % align == 0,
        offset % align == 0 ==> align_pad(offset, align) == 0,
        offset % align != 0 ==> align_pad(offset, align) == align - offset % align,
{
    let r = offset % align;
    lemma_mod_division_less_than_divisor(offset, align);
    if r == 0 {
        lemma_mod_self_0(align);
        assert(aligned_up(offset, align) == offset);
        assert(offset % align == 0);
    } else {
        lemma_small_mod((align - r) as nat, align as nat);
        assert(align_pad(offset, align) == align - r);
        assert(aligned_up(offset, align) == offset - r + align);
        lemma_aligned_sum(offset, align);
    }
}

/// Helper: `offset - offset % align + align` is a multiple of `align`.
proof fn lemma_aligned_sum(offset: int, align: int)
    requires
        1 <= align,
    ensures
        (offset - offset % align + align) % align == 0,
{
    let q = offset / align;
    vstd::arithmetic::div_mod::lemma_fundamental_div_mod(offset, align);
    assert(offset - offset % align + align == (q + 1) * align) by (nonlinear_arith)
        requires
            offset == q * align + offset % align,
    ;
    vstd::arithmetic::div_mod::lemma_mod_multiples_basic(q + 1, align);
}

/// One contiguous block of raw storage with a fixed byte capacity. The block
/// is modeled by its capacity; a page never resizes in place.
pub(crate) struct AllocationPage {
    pub(crate) capacity: usize,
}

impl AllocationPage {
    /// Construct a page of exactly `size` bytes. A zero-sized page is a
    /// precondition violation: the underlying allocation primitive must never
    /// see a zero-sized request.
    pub(crate) fn new(size: usize) -> (p: Self)
        requires
            size >= 1,
        ensures
            p.capacity == size,
    {
        AllocationPage { capacity: size }
    }

    /// Try to reserve `size` bytes at alignment `align`, starting at the
    /// page-relative offset `offset`. Returns the half-open reserved interval
    /// `(start, end)`, or `None` when the aligned end would pass the page's
    /// end. Pure: the caller advances its own cursor.
    pub(crate) fn try_alloc_layout(&self, offset: usize, size: usize, align: usize) -> (r: Option<
        (usize, usize),
    >)
        requires
            1 <= align,
        ensures
            match r {
                Some(interval) => {
                    &&& fits(offset as int, size as int, align as int, self.capacity as int)
                    &&& interval.0 == aligned_up(offset as int, align as int)
                    &&& interval.1 == interval.0 + size
                    &&& interval.1 <= self.capacity
                },
                None => !fits(offset as int, size as int, align as int, self.capacity as int),
            },
    {
        proof {
            lemma_align_pad_bounds(offset as int, align as int);
        }
        let rem: usize = offset % align;
        let pad: usize = if rem == 0 {
            0
        } else {
            align - rem
        };
        if pad <= usize::MAX - offset {
            let start: usize = offset + pad;
            if size <= usize::MAX - start {
                let end: usize = start + size;
                if end <= self.capacity {
                    return Some((start, end));
                }
            }
        }
        None
    }
}

} // verus!
