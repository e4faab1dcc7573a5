//! The arena: a growable ordered sequence of pages, a bump cursor, the slot
//! sequence of allocated values (which doubles as the destructor registry:
//! slots are dropped front to back, i.e. in allocation order, on `clear`),
//! and the liveness epoch that every outstanding handle compares against.

use vstd::arithmetic::div_mod::lemma_small_mod;
use vstd::layout::align_of;
use vstd::layout::layout_for_type_is_valid;
use vstd::layout::size_of;
use vstd::pervasive::unreached;
use vstd::prelude::*;

use crate::geometry::AllocationPage;
use crate::geometry::aligned_up;
use crate::geometry::fits;
use crate::geometry::lemma_align_pad_bounds;
use crate::handle::HandleModel;
use crate::handle::WeakBox;

verus! {

/// The mathematical state of an arena: the page-size hint, the byte capacity
/// of every page in creation order, the active page index, the next free byte
/// offset in the active page, the values allocated since the last clear in
/// allocation order, and the current liveness epoch.
#[verifier::ext_equal]
pub struct ArenaModel<T> {
    pub page_size: nat,
    pub pages: Seq<nat>,
    pub active: int,
    pub offset: nat,
    pub values: Seq<T>,
    pub generation: nat,
}

/// The arena invariant: at least one page exists, every page is non-empty,
/// the active page is the most recently created one, the active page's
/// capacity equals the current page-size hint, and the cursor lies within the
/// active page.
pub open spec fn arena_inv<T>(m: ArenaModel<T>) -> bool {
    &&& m.pages.len() >= 1
    &&& m.page_size >= 1
    &&& m.active == m.pages.len() - 1
    &&& m.pages.last() == m.page_size
    &&& m.offset <= m.pages.last()
    &&& forall|i: int| 0 <= i < m.pages.len() ==> #[trigger] m.pages[i] >= 1
}

/// The page-size hint after one growth step for a request of `size` bytes:
/// the hint doubles (held to what a `usize` can carry) and is then clamped up
/// to at least `size`, so a single oversized allocation never fails.
pub open spec fn grown_hint(page_size: nat, size: nat) -> nat {
    let doubled: nat = if page_size > (usize::MAX as nat) / 2 {
        usize::MAX as nat
    } else {
        2 * page_size
    };
    if doubled >= size {
        doubled
    } else {
        size
    }
}

/// Facts about the layout of `T` that every allocation establishes.
pub open spec fn layout_facts<T>() -> bool {
    &&& 1 <= align_of::<T>()
    &&& align_of::<T>() <= usize::MAX
    &&& size_of::<T>() <= usize::MAX
    &&& size_of::<T>() % align_of::<T>() == 0
}

/// What one allocation does to the arena, and what the returned handle holds:
/// the value is appended to the slot sequence, the epoch is unchanged, and
/// the geometry either bump-advances within the active page (when the
/// aligned request fits) or appends one freshly grown page and places the
/// request at its start.
pub open spec fn alloc_post<T>(
    pre: ArenaModel<T>,
    post: ArenaModel<T>,
    h: HandleModel,
    v: T,
) -> bool {
    let size: nat = size_of::<T>();
    let align: nat = align_of::<T>();
    &&& post.values == pre.values.push(v)
    &&& post.generation == pre.generation
    &&& post.active == post.pages.len() - 1
    &&& h.index == pre.values.len()
    &&& h.generation == post.generation
    &&& if fits(pre.offset as int, size as int, align as int, pre.pages.last() as int) {
        &&& post.pages == pre.pages
        &&& post.page_size == pre.page_size
        &&& post.offset == aligned_up(pre.offset as int, align as int) + size
    } else {
        &&& post.page_size == grown_hint(pre.page_size, size)
        &&& post.pages == pre.pages.push(post.page_size)
        &&& post.offset == size
    }
}

/// What `clear` does: every page but the most recently created one is gone,
/// the slot sequence (the destructor registry) is discarded, the cursor moves
/// to the start of the retained page, and the liveness epoch moves on, so
/// every handle issued before the clear is dead for good.
pub open spec fn clear_post<T>(pre: ArenaModel<T>, post: ArenaModel<T>) -> bool {
    &&& post.pages == seq![pre.pages.last()]
    &&& post.page_size == pre.page_size
    &&& post.active == 0
    &&& post.offset == 0
    &&& post.values == Seq::<T>::empty()
    &&& post.generation == pre.generation + 1
}

/// The bump-allocation position: the active page and the next free byte
/// offset within it.
struct Cursor {
    page: usize,
    offset: usize,
}

/// A region allocator. Values are bump-allocated into pages that double in
/// size as they run out, and every handle it returns goes dead the moment
/// `clear` runs.
pub struct WeakArena<T> {
    page_size: usize,
    pages: Vec<AllocationPage>,
    cursor: Cursor,
    values: Vec<T>,
    generation: u64,
}

/// The capacities of a page sequence, in creation order.
pub(crate) open spec fn caps(pages: Seq<AllocationPage>) -> Seq<nat> {
    pages.map_values(|p: AllocationPage| p.capacity as nat)
}

impl<T> View for WeakArena<T> {
    type V = ArenaModel<T>;

    closed spec fn view(&self) -> ArenaModel<T> {
        ArenaModel {
            page_size: self.page_size as nat,
            pages: caps(self.pages@),
            active: self.cursor.page as int,
            offset: self.cursor.offset as nat,
            values: self.values@,
            generation: self.generation as nat,
        }
    }
}

impl<T> WeakArena<T> {
    /// The arena is well-formed. Established by `new` and preserved by every
    /// operation.
    pub open spec fn wf(&self) -> bool {
        arena_inv(self@)
    }

    /// Create an arena with one page of `page_size` bytes. The page size must
    /// be positive: a zero-sized page must never reach the underlying
    /// allocation primitive.
    pub fn new(page_size: usize) -> (a: Self)
        requires
            page_size >= 1,
        ensures
            a.wf(),
            a@.page_size == page_size,
            a@.pages == seq![page_size as nat],
            a@.active == 0,
            a@.offset == 0,
            a@.values == Seq::<T>::empty(),
            a@.generation == 0,
    {
        let page = AllocationPage::new(page_size);
        let mut pages: Vec<AllocationPage> = Vec::new();
        pages.push(page);
        let a = WeakArena {
            page_size,
            cursor: Cursor { page: 0, offset: 0 },
            pages,
            values: Vec::new(),
            generation: 0,
        };
        proof {
            assert(a@.pages =~= seq![page_size as nat]);
        }
        a
    }

    /// Clear the arena: discard all allocated values (their destructors run
    /// in allocation order as the slot sequence is dropped front to back),
    /// keep only the most recently created page, reset the cursor to its
    /// start, and start a fresh liveness epoch, so every outstanding handle
    /// observes death from now on.
    pub fn clear(&mut self)
        requires
            old(self).wf(),
            old(self)@.generation < u64::MAX,
        ensures
            final(self).wf(),
            clear_post(old(self)@, final(self)@),
    {
        self.values.clear();
        let last = match self.pages.pop() {
            Some(page) => page,
            None => unreached(),
        };
        self.pages.clear();
        self.pages.push(last);
        self.generation = self.generation + 1;
        self.cursor = Cursor { page: 0, offset: 0 };
        proof {
            assert(self@.pages =~= seq![old(self)@.pages.last()]);
        }
    }

    /// Allocate `v` in the arena and return an exclusive handle to it, valid
    /// until the next `clear`. The value occupies the reserved slot; the
    /// handle addresses it by slot index and carries the current epoch.
    pub fn allocate(&mut self, v: T) -> (b: WeakBox<T>)
        requires
            old(self).wf(),
        ensures
            final(self).wf(),
            layout_facts::<T>(),
            alloc_post(old(self)@, final(self)@, b@, v),
    {
        let size: usize = core::mem::size_of::<T>();
        let align: usize = core::mem::align_of::<T>();
        layout_for_type_is_valid::<T>();
        let _start: usize = self.alloc_layout(size, align);
        let index: usize = self.values.len();
        self.values.push(v);
        WeakBox::new(index, self.generation)
    }

    /// Allocate the value produced by `f`, as `allocate` does.
    pub fn alloc_with<F: FnOnce() -> T>(&mut self, f: F) -> (b: WeakBox<T>)
        requires
            old(self).wf(),
            call_requires(f, ()),
        ensures
            final(self).wf(),
            layout_facts::<T>(),
            exists|v: T|
                #[trigger] call_ensures(f, (), v) && alloc_post(old(self)@, final(self)@, b@, v),
    {
        let v = f();
        self.allocate(v)
    }

    /// Reserve `size` bytes at alignment `align`, bumping the cursor within
    /// the active page when the request fits there and growing by one page
    /// otherwise. Returns the page-relative start offset of the reservation.
    fn alloc_layout(&mut self, size: usize, align: usize) -> (start: usize)
        requires
            old(self).wf(),
            1 <= align,
        ensures
            final(self).wf(),
            final(self)@.values == old(self)@.values,
            final(self)@.generation == old(self)@.generation,
            if fits(
                old(self)@.offset as int,
                size as int,
                align as int,
                old(self)@.pages.last() as int,
            ) {
                &&& final(self)@.pages == old(self)@.pages
                &&& final(self)@.page_size == old(self)@.page_size
                &&& start == aligned_up(old(self)@.offset as int, align as int)
                &&& final(self)@.offset == start + size
            } else {
                &&& final(self)@.page_size == grown_hint(old(self)@.page_size, size as nat)
                &&& final(self)@.pages == old(self)@.pages.push(final(self)@.page_size)
                &&& start == 0
                &&& final(self)@.offset == size
            },
    {
        match self.alloc_in_current_page(size, align) {
            Some(start) => start,
            None => self.alloc_in_new_page(size, align),
        }
    }

    /// Try to reserve within the active page, advancing the cursor on
    /// success and leaving the arena untouched otherwise.
    fn alloc_in_current_page(&mut self, size: usize, align: usize) -> (r: Option<usize>)
        requires
            old(self).wf(),
            1 <= align,
        ensures
            final(self).wf(),
            match r {
                Some(start) => {
                    &&& fits(
                        old(self)@.offset as int,
                        size as int,
                        align as int,
                        old(self)@.pages.last() as int,
                    )
                    &&& start == aligned_up(old(self)@.offset as int, align as int)
                    &&& final(self)@.pages == old(self)@.pages
                    &&& final(self)@.page_size == old(self)@.page_size
                    &&& final(self)@.offset == start + size
                    &&& final(self)@.values == old(self)@.values
                    &&& final(self)@.generation == old(self)@.generation
                },
                None => {
                    &&& !fits(
                        old(self)@.offset as int,
                        size as int,
                        align as int,
                        old(self)@.pages.last() as int,
                    )
                    &&& *final(self) == *old(self)
                },
            },
    {
        let idx: usize = self.cursor.page;
        match self.pages[idx].try_alloc_layout(self.cursor.offset, size, align) {
            Some(interval) => {
                self.cursor.offset = interval.1;
                Some(interval.0)
            },
            None => None,
        }
    }

    /// Grow: double the page-size hint (clamped up to `size`), create a page
    /// of that size, reserve the request at its very start — which succeeds
    /// by construction — append the page and move the cursor into it.
    fn alloc_in_new_page(&mut self, size: usize, align: usize) -> (start: usize)
        requires
            old(self).wf(),
            1 <= align,
        ensures
            final(self).wf(),
            final(self)@.page_size == grown_hint(old(self)@.page_size, size as nat),
            final(self)@.pages == old(self)@.pages.push(final(self)@.page_size),
            start == 0,
            final(self)@.offset == size,
            final(self)@.values == old(self)@.values,
            final(self)@.generation == old(self)@.generation,
    {
        let doubled: usize = if self.page_size > usize::MAX / 2 {
            usize::MAX
        } else {
            self.page_size * 2
        };
        let new_size: usize = if doubled >= size {
            doubled
        } else {
            size
        };
        self.page_size = new_size;
        let page = AllocationPage::new(new_size);
        proof {
            lemma_small_mod(0nat, align as nat);
            lemma_align_pad_bounds(0, align as int);
        }
        match page.try_alloc_layout(0, size, align) {
            Some(interval) => {
                let id: usize = self.pages.len();
                self.pages.push(page);
                self.cursor.page = id;
                self.cursor.offset = interval.1;
                proof {
                    assert(self@.pages =~= old(self)@.pages.push(new_size as nat));
                }
                interval.0
            },
            None => unreached(),
        }
    }

    /// How many pages the arena currently holds.
    pub fn page_count(&self) -> (n: usize)
        ensures
            n == self@.pages.len(),
    {
        self.pages.len()
    }

    /// The current liveness epoch.
    pub(crate) fn generation(&self) -> (g: u64)
        ensures
            g as nat == self@.generation,
    {
        self.generation
    }

    /// How many values have been allocated since the last clear.
    pub(crate) fn values_len(&self) -> (n: usize)
        ensures
            n == self@.values.len(),
    {
        self.values.len()
    }

    /// Read the value in slot `i`.
    pub(crate) fn value_ref(&self, i: usize) -> (r: &T)
        requires
            i < self@.values.len(),
        ensures
            *r == self@.values[i as int],
    {
        &self.values[i]
    }

    /// Borrow the value in slot `i` mutably. Only the slot sequence changes,
    /// and only at `i`.
    pub(crate) fn value_mut(&mut self, i: usize) -> (r: &mut T)
        requires
            i < old(self)@.values.len(),
        ensures
            *r == old(self)@.values[i as int],
            final(self)@.values == old(self)@.values.update(i as int, *final(r)),
            final(self)@.pages == old(self)@.pages,
            final(self)@.page_size == old(self)@.page_size,
            final(self)@.active == old(self)@.active,
            final(self)@.offset == old(self)@.offset,
            final(self)@.generation == old(self)@.generation,
    {
        &mut self.values[i]
    }
}

} // verus!
