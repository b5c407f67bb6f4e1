use wincap::spsc_ring::SpscRing;

#[test]
fn ring_is_first_in_first_out() {
    let mut ring: SpscRing<u32, 4> = SpscRing::new();
    assert!(ring.is_empty());
    assert_eq!(ring.try_push(1), Ok(()));
    assert_eq!(ring.try_push(2), Ok(()));
    assert_eq!(ring.try_push(3), Ok(()));
    assert_eq!(ring.try_push(4), Err(4));
    assert_eq!(ring.push_overwrite(4), Some(1));
    assert_eq!(ring.try_pop(), Some(2));
    assert_eq!(ring.try_pop(), Some(3));
    assert_eq!(ring.try_pop(), Some(4));
    assert_eq!(ring.try_pop(), None);
    assert!(ring.is_empty());
}

#[test]
fn ring_goes_round_many_times() {
    let mut ring: SpscRing<u32, 2> = SpscRing::default();
    for i in 0..100u32 {
        assert_eq!(ring.try_push(i), Ok(()));
        assert_eq!(ring.try_push(i + 1), Err(i + 1));
        assert!(!ring.is_empty());
        assert_eq!(ring.try_pop(), Some(i));
        assert!(ring.is_empty());
    }
}

#[test]
fn overwriting_keeps_the_newest() {
    let mut ring: SpscRing<String, 4> = SpscRing::new();
    let mut evicted = Vec::new();
    for i in 0..10 {
        if let Some(old) = ring.push_overwrite(format!("{}", i)) {
            evicted.push(old);
        }
    }
    assert_eq!(evicted, vec!["0", "1", "2", "3", "4", "5", "6"]);
    assert_eq!(ring.try_pop().as_deref(), Some("7"));
    assert_eq!(ring.try_pop().as_deref(), Some("8"));
    assert_eq!(ring.try_pop().as_deref(), Some("9"));
    assert_eq!(ring.try_pop(), None);
}

#[test]
fn what_enters_leaves_in_order() {
    // Any mixture of operations: 0 pushes, 1 overwrites, 2 pops.
    for mut code in 0..2187u32 {
        let mut ring: SpscRing<u32, 4> = SpscRing::new();
        let mut entered = Vec::new();
        let mut left = Vec::new();
        for value in 0..7u32 {
            match code % 3 {
                0 => {
                    if ring.try_push(value).is_ok() {
                        entered.push(value);
                    }
                }
                1 => {
                    left.extend(ring.push_overwrite(value));
                    entered.push(value);
                }
                _ => left.extend(ring.try_pop()),
            }
            code /= 3;
        }
        while let Some(value) = ring.try_pop() {
            left.push(value);
        }
        assert_eq!(left, entered);
    }
}
