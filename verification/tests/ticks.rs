use fieldbus_master::tick::next_deadline;

#[test]
fn normal_tick_advances_one_period() {
    // Exchange finished within the tick: wait for the next boundary.
    assert_eq!(next_deadline(100, 104, 10), 110);
    assert_eq!(next_deadline(100, 110, 10), 110);
}

#[test]
fn overrun_skips_missed_boundaries() {
    // The exchange took three periods: the boundaries at 110 and 120
    // are skipped, the next deadline is 130 — one exchange per overrun
    // window, not a backlog of three.
    assert_eq!(next_deadline(100, 130, 10), 130);
    // Slightly past a boundary: jump to the next one, never backwards.
    assert_eq!(next_deadline(100, 131, 10), 140);
    assert_eq!(next_deadline(100, 139, 10), 140);
}

#[test]
fn deadline_is_never_in_the_past() {
    for now in 100..200u64 {
        let d = next_deadline(100, now, 10);
        assert!(d >= now);
        assert!(d > 100);
        assert_eq!((d - 100) % 10, 0);
    }
}
