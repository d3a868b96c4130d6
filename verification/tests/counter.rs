use biliver::LoopCounter;

#[test]
fn counter_reaches_bound_first_then_every_two_bound_ticks() {
    let mut c = LoopCounter::new(3);
    assert_eq!(c.bound_halves(), 6);
    let values: Vec<u64> = (0..14).map(|_| c.next()).collect();
    assert_eq!(values, vec![6, 1, 2, 3, 4, 5, 6, 1, 2, 3, 4, 5, 6, 1]);
}

#[test]
fn counter_fires_next_predicts_bound() {
    let mut c = LoopCounter::new(1);
    assert!(c.fires_next());
    assert_eq!(c.next(), 2);
    assert!(!c.fires_next());
    assert_eq!(c.next(), 1);
    assert!(c.fires_next());
    assert_eq!(c.next(), 2);
}

#[test]
fn counter_with_zero_bound_fires_once() {
    let mut c = LoopCounter::new(0);
    assert!(c.fires_next());
    assert_eq!(c.next(), 0);
    for _ in 0..5 {
        assert!(!c.fires_next());
        assert_eq!(c.next(), 1);
    }
}

#[test]
fn counter_with_largest_bound() {
    let mut c = LoopCounter::new(u32::MAX);
    assert_eq!(c.next(), 2 * (u32::MAX as u64));
    assert_eq!(c.next(), 1);
}
