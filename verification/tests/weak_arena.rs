use std::cell::RefCell;
use std::rc::Rc;

use weak_arena::WeakArena;
use weak_arena::WeakBox;
use weak_arena::WeakShared;

/// A value whose destructor records its id, to observe destruction order.
struct Recorder {
    id: u32,
    log: Rc<RefCell<Vec<u32>>>,
}

impl Drop for Recorder {
    fn drop(&mut self) {
        self.log.borrow_mut().push(self.id);
    }
}

#[test]
fn page_grows_exp() {
    let mut arena = WeakArena::new(std::mem::size_of::<i32>());

    arena.allocate(0);
    assert_eq!(arena.page_count(), 1);

    for _ in 0..2 {
        arena.allocate(0);
        assert_eq!(arena.page_count(), 2);
    }

    for _ in 0..4 {
        arena.allocate(0);
        assert_eq!(arena.page_count(), 3);
    }

    for _ in 0..8 {
        arena.allocate(0);
        assert_eq!(arena.page_count(), 4);
    }

    arena.allocate(0);
    assert_eq!(arena.page_count(), 5);
}

#[test]
fn clear_reuses_largest_page() {
    let mut arena = WeakArena::new(std::mem::size_of::<i32>());

    arena.allocate(0);
    assert_eq!(arena.page_count(), 1);

    for _ in 0..2 {
        arena.allocate(0);
        assert_eq!(arena.page_count(), 2);
    }

    for _ in 0..4 {
        arena.allocate(0);
        assert_eq!(arena.page_count(), 3);
    }

    arena.clear();

    for _ in 0..4 {
        arena.allocate(0);
        assert_eq!(arena.page_count(), 1);
    }

    arena.allocate(0);
    assert_eq!(arena.page_count(), 2);
}

#[test]
fn it_works() {
    let mut arena = WeakArena::new(std::mem::size_of::<i32>());

    let a = arena.allocate(10);
    let b = arena.allocate(20);
    let c = arena.allocate(30);
    let d = arena.allocate(40);

    assert_eq!(*a.get(&arena), 10);
    assert_eq!(*b.get(&arena), 20);
    assert_eq!(*c.get(&arena), 30);
    assert_eq!(*d.get(&arena), 40);

    arena.clear();

    assert!(a.as_ref(&arena).is_none());
}

#[test]
fn fits_within_page_keeps_one_page() {
    let mut arena = WeakArena::new(16);
    for i in 0..4 {
        arena.allocate(i as i32);
    }
    assert_eq!(arena.page_count(), 1);
}

#[test]
fn zero_sized_values_never_grow() {
    let mut arena = WeakArena::new(1);
    for _ in 0..100 {
        arena.allocate(());
    }
    assert_eq!(arena.page_count(), 1);
}

#[test]
fn oversized_allocation_grows_to_fit() {
    let mut arena: WeakArena<[u8; 16]> = WeakArena::new(1);
    assert_eq!(arena.page_count(), 1);

    let big = arena.allocate([7u8; 16]);
    assert_eq!(arena.page_count(), 2);
    assert_eq!(big.get(&arena)[0], 7);
    assert_eq!(big.get(&arena)[15], 7);

    arena.allocate([8u8; 16]);
    assert_eq!(arena.page_count(), 3);
}

#[test]
fn destructors_run_once_in_allocation_order() {
    let log: Rc<RefCell<Vec<u32>>> = Rc::new(RefCell::new(Vec::new()));
    let mut arena = WeakArena::new(64);

    arena.allocate(Recorder { id: 1, log: log.clone() });
    arena.allocate(Recorder { id: 2, log: log.clone() });
    arena.allocate(Recorder { id: 3, log: log.clone() });
    assert_eq!(log.borrow().len(), 0);

    arena.clear();
    assert_eq!(*log.borrow(), vec![1, 2, 3]);

    arena.clear();
    assert_eq!(*log.borrow(), vec![1, 2, 3]);

    arena.allocate(Recorder { id: 4, log: log.clone() });
    drop(arena);
    assert_eq!(*log.borrow(), vec![1, 2, 3, 4]);
}

#[test]
fn shared_clones_die_together() {
    let mut arena = WeakArena::new(4);
    let exclusive = arena.allocate(5i32);
    let s1 = exclusive.into_shared();
    let s2 = s1.clone();
    let s3 = s2.clone();

    assert_eq!(*s1.get(&arena), 5);
    assert_eq!(*s2.as_ref(&arena).unwrap(), 5);
    assert_eq!(*s3.as_ref(&arena).unwrap(), 5);

    arena.clear();

    assert!(s1.as_ref(&arena).is_none());
    assert!(s2.as_ref(&arena).is_none());
    assert!(s3.as_ref(&arena).is_none());
}

#[test]
fn exclusive_handle_writes() {
    let mut arena = WeakArena::new(16);
    let handle = arena.allocate(10i32);

    *handle.get_mut(&mut arena) = 11;
    assert_eq!(*handle.get(&arena), 11);

    assert!(handle.try_set(&mut arena, 12));
    assert_eq!(*handle.as_ref(&arena).unwrap(), 12);

    arena.clear();
    assert!(!handle.try_set(&mut arena, 13));
}

#[test]
fn allocate_with_produces_the_value() {
    let mut arena = WeakArena::new(16);
    let handle = arena.alloc_with(|| 41i32 + 1);
    assert_eq!(*handle.get(&arena), 42);
}

#[test]
fn forged_handles_read_nothing() {
    let arena: WeakArena<i32> = WeakArena::new(4);
    let wrong_epoch = WeakBox::<i32>::new(0, 1);
    assert!(wrong_epoch.as_ref(&arena).is_none());
    let empty_slot = WeakShared::<i32>::new(0, 0);
    assert!(empty_slot.as_ref(&arena).is_none());
}

#[test]
fn assembled_handle_reads_its_slot() {
    let mut arena = WeakArena::new(4);
    arena.allocate(3i32);
    let shared = WeakShared::<i32>::new(0, 0);
    assert_eq!(*shared.as_ref(&arena).unwrap(), 3);
    let exclusive = WeakBox::<i32>::new(0, 0);
    assert_eq!(*exclusive.as_ref(&arena).unwrap(), 3);
}

#[test]
fn reuse_after_clear_places_values_in_retained_page() {
    let mut arena = WeakArena::new(std::mem::size_of::<i32>());
    for i in 0..8 {
        arena.allocate(i as i32);
    }
    let pages_before = arena.page_count();
    arena.clear();
    assert_eq!(arena.page_count(), 1);

    let h = arena.allocate(77i32);
    assert_eq!(arena.page_count(), 1);
    assert_eq!(*h.get(&arena), 77);
    assert!(pages_before > 1);
}
