use h_button::debouncer::Debouncer;

#[test]
fn first_event_is_accepted() {
    let mut gate = Debouncer::new(5_000);
    assert_eq!(gate.last_update(), None);
    assert!(gate.should_update(0));
    assert_eq!(gate.last_update(), Some(0));
}

#[test]
fn event_inside_window_is_rejected_and_leaves_state() {
    let mut gate = Debouncer::new(5_000);
    assert!(gate.should_update(1_000));
    assert!(!gate.should_update(4_000));
    assert_eq!(gate.last_update(), Some(1_000));
    assert!(!gate.should_update(5_999));
    assert_eq!(gate.last_update(), Some(1_000));
}

#[test]
fn event_at_exactly_the_window_is_accepted() {
    let mut gate = Debouncer::new(5_000);
    assert!(gate.should_update(1_000));
    assert!(gate.should_update(6_000));
    assert_eq!(gate.last_update(), Some(6_000));
}

#[test]
fn two_close_events_accept_exactly_one() {
    let mut gate = Debouncer::new(150_000);
    let first = gate.should_update(2_000_000);
    let second = gate.should_update(2_149_999);
    assert!(first);
    assert!(!second);
}

#[test]
fn rejected_events_do_not_extend_the_window() {
    let mut gate = Debouncer::new(5_000);
    assert!(gate.should_update(0));
    assert!(!gate.should_update(3_000));
    assert!(!gate.should_update(4_999));
    assert!(gate.should_update(5_000));
}

#[test]
fn spaced_events_are_all_accepted() {
    let mut gate = Debouncer::new(2_000);
    let times: [i64; 6] = [0, 2_000, 4_000, 7_500, 9_500, 100_000];
    for now in times {
        assert!(gate.should_update(now));
        assert_eq!(gate.last_update(), Some(now));
    }
}

#[test]
fn zero_window_always_accepts() {
    let mut gate = Debouncer::new(0);
    assert!(gate.should_update(10));
    assert!(gate.should_update(10));
    assert!(gate.should_update(11));
    assert_eq!(gate.debounce_duration(), 0);
}

#[test]
fn clock_running_backwards_is_rejected() {
    let mut gate = Debouncer::new(0);
    assert!(gate.should_update(10));
    assert!(!gate.should_update(9));
    assert_eq!(gate.last_update(), Some(10));
}

#[test]
fn extreme_timestamps_do_not_overflow() {
    let mut gate = Debouncer::new(u64::MAX);
    assert!(gate.should_update(i64::MIN));
    assert!(!gate.should_update(i64::MAX - 1));
    assert_eq!(gate.last_update(), Some(i64::MIN));
    assert!(gate.should_update(i64::MAX));
    let mut gate = Debouncer::new(u64::MAX);
    assert!(gate.should_update(i64::MAX));
    assert!(!gate.should_update(i64::MIN));
    let mut wide = Debouncer::new(1u64 << 63);
    assert!(wide.should_update(-1));
    assert!(!wide.should_update(i64::MAX - 1));
    assert!(wide.should_update(i64::MAX));
}

#[test]
fn gates_are_independent() {
    let mut a = Debouncer::new(5_000);
    let mut b = Debouncer::new(5_000);
    assert!(a.should_update(0));
    assert!(b.should_update(1_000));
    assert!(!a.should_update(2_000));
    assert!(!b.should_update(5_000));
    assert!(a.should_update(5_000));
}
