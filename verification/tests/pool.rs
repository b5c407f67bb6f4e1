use wincap::frame_pool::{FramePool, MAX_SLOTS, SHARED_HANDLE_FLAGS};

fn filled(count: u32) -> FramePool<u32> {
    let mut pool = FramePool::new();
    assert_eq!(pool.init(count, 0, false).ok(), Some(0));
    for i in 0..count {
        assert_eq!(pool.slot_created(100 + i, None), i + 1 < count);
    }
    pool
}

#[test]
fn pool_checks_its_size() {
    let mut pool: FramePool<u32> = FramePool::new();
    let e = pool.init(0, 0, false).unwrap_err();
    assert_eq!(e.to_string(), "frame_pool: count must be 1..8, got 0");
    let e = pool.init(MAX_SLOTS + 1, 0, false).unwrap_err();
    assert_eq!(e.to_string(), "frame_pool: count must be 1..8, got 9");
    assert_eq!(pool.init(MAX_SLOTS, 4, true).ok(), Some(4 | SHARED_HANDLE_FLAGS));
}

#[test]
fn slots_are_taken_in_order_and_run_out() {
    let mut pool = filled(3);
    assert_eq!(pool.capacity(), 3);
    assert_eq!(pool.acquire(), Some(0));
    assert_eq!(pool.acquire(), Some(1));
    assert_eq!(pool.acquire(), Some(2));
    assert_eq!(pool.acquire(), None);
    pool.release(1);
    assert_eq!(pool.acquire(), Some(1));
    assert_eq!(pool.acquire(), None);
}

#[test]
fn retained_slots_need_two_releases() {
    let mut pool = filled(1);
    assert_eq!(pool.acquire(), Some(0));
    pool.retain(0);
    pool.release(0);
    assert_eq!(pool.acquire(), None);
    pool.release(0);
    assert_eq!(pool.acquire(), Some(0));
}

#[test]
fn the_largest_pool_works() {
    let mut pool = filled(MAX_SLOTS);
    for i in 0..MAX_SLOTS {
        assert_eq!(pool.acquire(), Some(i));
    }
    assert_eq!(pool.acquire(), None);
    for i in 0..MAX_SLOTS {
        pool.release(MAX_SLOTS - 1 - i);
        assert_eq!(pool.acquire(), Some(MAX_SLOTS - 1 - i));
    }
}

#[test]
fn slots_can_be_looked_up() {
    let pool = filled(2);
    let slot = pool.get_slot(1).unwrap();
    assert_eq!((slot.resource, slot.index, slot.refcount), (101, 1, 0));
    assert!(pool.get_slot(2).is_none());
}

#[test]
fn shutting_down_hands_out_shared_handles() {
    let mut pool: FramePool<u32> = FramePool::new();
    assert!(pool.init(3, 0, true).is_ok());
    assert!(pool.slot_created(1, Some(11)));
    assert!(pool.slot_created(2, None));
    assert!(!pool.slot_created(3, Some(33)));
    assert_eq!(pool.shutdown(), vec![11, 33]);
    assert_eq!(pool.capacity(), 0);
    assert_eq!(pool.acquire(), None);
    assert_eq!(pool.shutdown(), Vec::<usize>::new());
}
