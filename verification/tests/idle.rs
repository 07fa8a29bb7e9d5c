use midas_app::idle::{idle_step, quiet_nanos, IdleStep, IDLE_THRESHOLD_NS};

#[test]
fn quiet_time_is_never_negative() {
    assert_eq!(quiet_nanos(1_000, 400), 600);
    assert_eq!(quiet_nanos(400, 1_000), 0);
    assert_eq!(quiet_nanos(i64::MAX, i64::MIN), u64::MAX);
}

#[test]
fn idle_once_quiet_for_the_threshold() {
    assert_eq!(idle_step(IDLE_THRESHOLD_NS, 0), IdleStep::Idle);
    assert_eq!(idle_step(IDLE_THRESHOLD_NS - 1, 0), IdleStep::TimedOut);
}

#[test]
fn sleeps_until_threshold_or_deadline() {
    assert_eq!(idle_step(20_000_000, 1_000_000_000), IdleStep::Sleep(30_000_000));
    assert_eq!(idle_step(20_000_000, 5_000_000), IdleStep::Sleep(5_000_000));
    assert_eq!(idle_step(0, 50_000_000), IdleStep::Sleep(50_000_000));
}
