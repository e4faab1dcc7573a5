//! Weak handles to arena-allocated values.
//!
//! An exclusive handle grants read and write access to one allocated value;
//! a shared handle is its freely clonable read-only counterpart. Both carry
//! the liveness epoch that was current when the value was allocated, and
//! every access first compares that epoch with the arena's current one: once
//! the arena is cleared, the epochs differ for good, and the handle reports
//! death instead of reaching the discarded value.

use vstd::prelude::*;

use crate::arena::ArenaModel;
use crate::arena::WeakArena;

verus! {

/// The mathematical state of a handle: the slot it points at and the
/// liveness epoch it was issued in.
pub struct HandleModel {
    pub index: nat,
    pub generation: nat,
}

/// A handle is alive exactly when the epoch it was issued in is still the
/// arena's current one. Clearing the arena moves the epoch on, so every
/// handle issued earlier is dead, permanently.
pub open spec fn is_live<T>(h: HandleModel, m: ArenaModel<T>) -> bool {
    h.generation == m.generation
}

/// A handle that is present: it is alive and its slot exists. Accessing a
/// handle through the arena it was issued by always finds the slot while the
/// handle is alive.
pub open spec fn is_present<T>(h: HandleModel, m: ArenaModel<T>) -> bool {
    is_live(h, m) && h.index < m.values.len()
}

/// An exclusive, weak handle to one arena-allocated value: the analogue of
/// an owning box whose contents die when the arena is cleared. While alive
/// it grants read and write access; it can be turned, once, into a
/// `WeakShared`.
pub struct WeakBox<T> {
    index: usize,
    generation: u64,
    marker: core::marker::PhantomData<T>,
}

impl<T> View for WeakBox<T> {
    type V = HandleModel;

    closed spec fn view(&self) -> HandleModel {
        HandleModel { index: self.index as nat, generation: self.generation as nat }
    }
}

impl<T> WeakBox<T> {
    /// Assemble a handle from a slot index and the liveness epoch it was
    /// issued in.
    pub fn new(index: usize, generation: u64) -> (b: Self)
        ensures
            b@.index == index,
            b@.generation == generation,
    {
        WeakBox { index, generation, marker: core::marker::PhantomData }
    }

    /// Read access that checks liveness first: the value while the handle is
    /// present, `None` once it is dead.
    pub fn as_ref<'a>(&self, arena: &'a WeakArena<T>) -> (r: Option<&'a T>)
        ensures
            match r {
                Some(value) => is_present(self@, arena@) && *value == arena@.values[self@.index as int],
                None => !is_present(self@, arena@),
            },
    {
        if self.generation == arena.generation() && self.index < arena.values_len() {
            Some(arena.value_ref(self.index))
        } else {
            None
        }
    }

    /// Direct read access: the dereference operation. Dead handles are ruled
    /// out by precondition; at runtime that condition is exactly what
    /// `as_ref` reports.
    pub fn get<'a>(&self, arena: &'a WeakArena<T>) -> (r: &'a T)
        requires
            is_present(self@, arena@),
        ensures
            *r == arena@.values[self@.index as int],
    {
        match self.as_ref(arena) {
            Some(value) => value,
            None => vstd::pervasive::unreached(),
        }
    }

    /// Direct write access: the mutable dereference operation. Dead handles
    /// are ruled out by precondition. Only the value in this handle's slot
    /// changes.
    pub fn get_mut<'a>(&self, arena: &'a mut WeakArena<T>) -> (r: &'a mut T)
        requires
            is_present(self@, old(arena)@),
        ensures
            *r == old(arena)@.values[self@.index as int],
            final(arena)@.values == old(arena)@.values.update(self@.index as int, *final(r)),
            final(arena)@.pages == old(arena)@.pages,
            final(arena)@.page_size == old(arena)@.page_size,
            final(arena)@.active == old(arena)@.active,
            final(arena)@.offset == old(arena)@.offset,
            final(arena)@.generation == old(arena)@.generation,
    {
        arena.value_mut(self.index)
    }

    /// Write access that checks liveness first: stores `v` in the handle's
    /// slot and reports `true` while the handle is present; reports `false`,
    /// leaving the arena untouched, once it is dead.
    pub fn try_set(&self, arena: &mut WeakArena<T>, v: T) -> (ok: bool)
        ensures
            ok == is_present(self@, old(arena)@),
            ok ==> final(arena)@ == (ArenaModel {
                values: old(arena)@.values.update(self@.index as int, v),
                ..old(arena)@
            }),
            !ok ==> *final(arena) == *old(arena),
    {
        if self.generation == arena.generation() && self.index < arena.values_len() {
            let slot = arena.value_mut(self.index);
            *slot = v;
            proof {
                assert((*arena)@ =~= (ArenaModel {
                    values: old(arena)@.values.update(self@.index as int, v),
                    ..old(arena)@
                }));
            }
            true
        } else {
            false
        }
    }

    /// Turn this exclusive handle into a shared one, consuming it. The
    /// shared handle points at the same slot and carries the same liveness
    /// epoch.
    pub fn into_shared(self) -> (s: WeakShared<T>)
        ensures
            s@ == self@,
    {
        WeakShared { index: self.index, generation: self.generation, marker: core::marker::PhantomData }
    }
}

/// A clonable, read-only weak handle. Every clone carries the same liveness
/// epoch, so all clones of a handle become dead simultaneously.
pub struct WeakShared<T> {
    index: usize,
    generation: u64,
    marker: core::marker::PhantomData<T>,
}

impl<T> View for WeakShared<T> {
    type V = HandleModel;

    closed spec fn view(&self) -> HandleModel {
        HandleModel { index: self.index as nat, generation: self.generation as nat }
    }
}

impl<T> Clone for WeakShared<T> {
    /// A clone points at the same slot and carries the same liveness epoch
    /// as the handle it was cloned from.
    fn clone(&self) -> (s: Self)
        ensures
            s@ == self@,
    {
        WeakShared {
            index: self.index,
            generation: self.generation,
            marker: core::marker::PhantomData,
        }
    }
}

impl<T> WeakShared<T> {
    /// Assemble a shared handle from a slot index and the liveness epoch it
    /// was issued in.
    pub fn new(index: usize, generation: u64) -> (s: Self)
        ensures
            s@.index == index,
            s@.generation == generation,
    {
        WeakShared { index, generation, marker: core::marker::PhantomData }
    }

    /// Read access that checks liveness first: the value while the handle is
    /// present, `None` once it is dead.
    pub fn as_ref<'a>(&self, arena: &'a WeakArena<T>) -> (r: Option<&'a T>)
        ensures
            match r {
                Some(value) => is_present(self@, arena@) && *value == arena@.values[self@.index as int],
                None => !is_present(self@, arena@),
            },
    {
        if self.generation == arena.generation() && self.index < arena.values_len() {
            Some(arena.value_ref(self.index))
        } else {
            None
        }
    }

    /// Direct read access: the dereference operation. Dead handles are ruled
    /// out by precondition.
    pub fn get<'a>(&self, arena: &'a WeakArena<T>) -> (r: &'a T)
        requires
            is_present(self@, arena@),
        ensures
            *r == arena@.values[self@.index as int],
    {
        match self.as_ref(arena) {
            Some(value) => value,
            None => vstd::pervasive::unreached(),
        }
    }
}

} // verus!
