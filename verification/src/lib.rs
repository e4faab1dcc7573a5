//! A region-based allocator with weak, epoch-checked handles.
//!
//! An arena hands out bump allocations from a growable sequence of pages and
//! returns handles that go dead, all at once, the moment the arena is cleared.
//! Page geometry (bump cursor, alignment, doubling growth) is fully specified
//! and verified; the stored values are kept in a slot sequence in allocation
//! order, and every handle checks the arena's liveness epoch before it yields
//! a value.

mod arena;
mod geometry;
mod handle;
mod laws;

pub use arena::ArenaModel;
pub use arena::WeakArena;
pub use arena::alloc_post;
pub use arena::arena_inv;
pub use arena::clear_post;
pub use arena::grown_hint;
pub use arena::layout_facts;
pub use geometry::align_pad;
pub use geometry::aligned_up;
pub use geometry::fits;
pub use geometry::lemma_align_pad_bounds;
pub use handle::HandleModel;
pub use handle::WeakBox;
pub use handle::WeakShared;
pub use handle::is_live;
pub use handle::is_present;
pub use laws::lemma_alloc_after_clear_at_start;
pub use laws::lemma_clear_kills_handles;
pub use laws::lemma_clones_die_together;
pub use laws::lemma_fitting_alloc_keeps_pages;
pub use laws::lemma_growth_law;
