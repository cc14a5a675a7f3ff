use station_iapetus::arena::{Handle, LookupError, Pool};

#[test]
fn spawned_values_are_reachable_by_their_handles() {
    let mut pool: Pool<u32> = Pool::new();
    let a = pool.spawn(10);
    let b = pool.spawn(20);
    assert!(a.is_some());
    assert!(b.is_some());
    assert_ne!(a, b);
    assert_eq!(pool.try_borrow(a), Some(&10));
    assert_eq!(pool.try_borrow(b), Some(&20));
    assert!(pool.is_valid_handle(a));
    assert_eq!(pool.slot_count(), 2);
}

#[test]
fn freed_slot_is_reused_under_a_new_generation() {
    let mut pool: Pool<u32> = Pool::new();
    let a = pool.spawn(1);
    let _b = pool.spawn(2);
    assert_eq!(pool.free(a), Some(1));
    assert_eq!(pool.free(a), None);
    let c = pool.spawn(3);
    assert_eq!(c.index, a.index);
    assert_eq!(c.generation, a.generation + 1);
    assert_eq!(pool.try_borrow(a), None);
    assert_eq!(pool.try_borrow(c), Some(&3));
    assert_eq!(pool.slot_count(), 2);
}

#[test]
fn lookup_tells_freed_from_never_existed() {
    let mut pool: Pool<u32> = Pool::new();
    let a = pool.spawn(7);
    assert_eq!(pool.lookup(a), Ok(&7));
    pool.free(a);
    assert_eq!(pool.lookup(a), Err(LookupError::Freed));
    assert_eq!(pool.lookup(Handle::none()), Err(LookupError::NeverExisted));
    assert_eq!(pool.lookup(Handle { index: 5, generation: 1 }), Err(LookupError::NeverExisted));
    assert_eq!(pool.lookup(Handle { index: a.index, generation: a.generation + 1 }), Err(LookupError::NeverExisted));
}

#[test]
fn set_replaces_only_the_named_value() {
    let mut pool: Pool<u32> = Pool::new();
    let a = pool.spawn(1);
    let b = pool.spawn(2);
    pool.set(a, 5);
    assert_eq!(pool.try_borrow(a), Some(&5));
    assert_eq!(pool.try_borrow(b), Some(&2));
    assert!(pool.entry(0).is_some());
    pool.free(b);
    assert!(pool.entry(1).is_none());
}

#[test]
fn none_handle_names_nothing() {
    let h = Handle::none();
    assert!(h.is_none());
    assert!(!h.is_some());
}
