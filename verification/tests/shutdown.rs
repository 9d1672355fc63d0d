use spoticord::shutdown::ShutdownSignal;

#[test]
fn fresh_signal_admits_new_work() {
    let s = ShutdownSignal::new();
    assert!(!s.fired);
    assert!(s.admits_new_work());
}

#[test]
fn fired_signal_denies_new_work() {
    let mut s = ShutdownSignal::new();
    s.fire();
    assert!(s.fired);
    assert!(!s.admits_new_work());
}

#[test]
fn second_fire_is_a_no_op() {
    let mut once = ShutdownSignal::new();
    once.fire();

    let mut twice = ShutdownSignal::new();
    twice.fire();
    twice.fire();

    assert_eq!(once, twice);
    assert!(twice.fired);
    assert!(!twice.admits_new_work());
}
