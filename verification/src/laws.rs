//! The allocator's laws, stated over the arena and handle models and proved
//! from the operations' contracts.

use vstd::layout::align_of;
use vstd::layout::size_of;
use vstd::prelude::*;

use crate::arena::ArenaModel;
use crate::arena::alloc_post;
use crate::arena::clear_post;
use crate::arena::grown_hint;
use crate::arena::layout_facts;
use crate::geometry::aligned_up;
use crate::geometry::fits;
use crate::geometry::lemma_align_pad_bounds;
use crate::handle::HandleModel;
use crate::handle::is_live;

verus! {

/// An allocation whose aligned request fits in the active page leaves the
/// page sequence as it is. In particular, an arena created with page size P
/// keeps its single page as long as every allocation fits within P.
pub proof fn lemma_fitting_alloc_keeps_pages<T>(
    pre: ArenaModel<T>,
    post: ArenaModel<T>,
    h: HandleModel,
    v: T,
)
    requires
        alloc_post(pre, post, h, v),
        fits(
            pre.offset as int,
            size_of::<T>() as int,
            align_of::<T>() as int,
            pre.pages.last() as int,
        ),
    ensures
        post.pages == pre.pages,
        post.pages.len() == pre.pages.len(),
{
}

/// The doubling growth law: an allocation that does not fit in the active
/// page appends exactly one page, whose capacity is at least the requested
/// size, and at least twice the previous page-size hint whenever the doubled
/// hint still fits in a `usize`.
pub proof fn lemma_growth_law<T>(pre: ArenaModel<T>, post: ArenaModel<T>, h: HandleModel, v: T)
    requires
        alloc_post(pre, post, h, v),
        !fits(
            pre.offset as int,
            size_of::<T>() as int,
            align_of::<T>() as int,
            pre.pages.last() as int,
        ),
    ensures
        post.pages.len() == pre.pages.len() + 1,
        post.pages.last() == grown_hint(pre.page_size, size_of::<T>()),
        post.pages.last() >= size_of::<T>(),
        2 * pre.page_size <= usize::MAX ==> post.pages.last() >= 2 * pre.page_size,
{
    assert(post.pages.last() == post.page_size);
}

/// Clearing the arena kills every handle that was alive before: the epoch
/// moves on, and a handle's epoch never changes.
pub proof fn lemma_clear_kills_handles<T>(
    pre: ArenaModel<T>,
    post: ArenaModel<T>,
    h: HandleModel,
)
    requires
        clear_post(pre, post),
        is_live(h, pre),
    ensures
        !is_live(h, post),
{
}

/// After a clear, an allocation whose size fits the retained page is placed
/// at that page's very start: the cursor stands at offset zero, where every
/// alignment is satisfied.
pub proof fn lemma_alloc_after_clear_at_start<T>(pre: ArenaModel<T>, post: ArenaModel<T>)
    requires
        clear_post(pre, post),
        layout_facts::<T>(),
        size_of::<T>() <= post.pages.last(),
    ensures
        fits(
            post.offset as int,
            size_of::<T>() as int,
            align_of::<T>() as int,
            post.pages.last() as int,
        ),
        aligned_up(post.offset as int, align_of::<T>() as int) == 0,
{
    vstd::arithmetic::div_mod::lemma_small_mod(0nat, align_of::<T>());
    lemma_align_pad_bounds(0, align_of::<T>() as int);
}

/// All shared handles cloned from one exclusive handle carry the same epoch,
/// so against any arena state they are either all alive or all dead: they
/// become dead simultaneously when that arena clears.
pub proof fn lemma_clones_die_together<T>(h1: HandleModel, h2: HandleModel, m: ArenaModel<T>)
    requires
        h1.generation == h2.generation,
    ensures
        is_live(h1, m) <==> is_live(h2, m),
{
}

} // verus!
