use wincap::clock::{
    frequency, hundred_ns_to_ns, init, now_ns, now_ticks, position_to_ns, ticks_to_ns, QpcClock,
};

#[test]
fn first_frequency_is_kept() {
    let mut clock = QpcClock::new();
    init(&mut clock, 10_000_000);
    assert_eq!(frequency(&mut clock, 3), 10_000_000);
    assert_eq!(clock.frequency, Some(10_000_000));
}

#[test]
fn ticks_become_nanoseconds() {
    assert_eq!(ticks_to_ns(0, 10_000_000), 0);
    assert_eq!(ticks_to_ns(1, 10_000_000), 100);
    assert_eq!(ticks_to_ns(25_000_001, 10_000_000), 2_500_000_100);
    assert_eq!(ticks_to_ns(1, 3), 333_333_333);
    assert_eq!(ticks_to_ns(5, 3), 1_666_666_666);
}

#[test]
fn long_uptimes_do_not_overflow() {
    // A year of ticks of a 10 MHz counter.
    let year: u64 = 365 * 24 * 3600 * 10_000_000;
    assert_eq!(ticks_to_ns(year, 10_000_000), year * 100);
}

#[test]
fn readings_are_converted() {
    assert_eq!(now_ticks(7), 7);
    assert_eq!(now_ticks(-1), u64::MAX);
    assert_eq!(now_ns(20, 10_000_000), 2000);
}

#[test]
fn spans_become_nanoseconds() {
    assert_eq!(hundred_ns_to_ns(123), 12_300);
    assert_eq!(hundred_ns_to_ns(0), 0);
    assert_eq!(hundred_ns_to_ns(-1), u64::MAX - 99);
}

#[test]
fn counter_and_span_share_an_epoch() {
    // On a 10 MHz counter a tick is a unit of a span.
    let t: i64 = 987_654_321_012;
    assert_eq!(now_ns(t, 10_000_000), hundred_ns_to_ns(t));
}

#[test]
fn conversion_is_monotonic() {
    let mut last = 0;
    for ticks in 0..5000u64 {
        let ns = ticks_to_ns(ticks * 997, 3_579_545);
        assert!(ns >= last);
        last = ns;
    }
}

#[test]
fn positions_become_nanoseconds() {
    assert_eq!(position_to_ns(10_000_000), 1_000_000_000);
    assert_eq!(position_to_ns(10_000_000), hundred_ns_to_ns(10_000_000));
    assert_eq!(position_to_ns(0), 0);
}

#[test]
fn counter_and_span_agree_at_any_frequency() {
    // The system turns a reading into units of 100 ns.
    let (ticks, frequency): (u64, u64) = (9_999_999, 3_000_000);
    let span = ticks * 10_000_000 / frequency;
    let ns = ticks_to_ns(ticks, frequency);
    assert_eq!(ns, 3_333_333_000);
    assert_eq!(position_to_ns(span), 3_333_333_000);
    assert!(position_to_ns(span) <= ns && ns < position_to_ns(span) + 100);
}
