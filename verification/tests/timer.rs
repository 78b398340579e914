use std::time::Instant;

use linux_embedded_hal::SysTimer;
use linux_embedded_hal::TimerPoll;

/// Ensure that a 100 ms delay takes at least 100 ms,
/// but not longer than 500 ms.
#[test]
fn test_delay() {
    let mut timer = SysTimer::new();
    let before = Instant::now();
    timer.try_start(100_000_000);
    while timer.try_wait() != TimerPoll::Ready {}
    let after = Instant::now();
    let duration_ms = (after - before).as_millis();
    assert!(duration_ms >= 100);
    assert!(duration_ms < 500);
}

/// Ensure that the timer is periodic.
#[test]
fn test_periodic() {
    let mut timer = SysTimer::new();
    let before = Instant::now();
    timer.try_start(100_000_000);
    while timer.try_wait() != TimerPoll::Ready {}
    let after1 = Instant::now();
    let duration_ms_1 = (after1 - before).as_millis();
    assert!(duration_ms_1 >= 100);
    assert!(duration_ms_1 < 500);
    while timer.try_wait() != TimerPoll::Ready {}
    let after2 = Instant::now();
    let duration_ms_2 = (after2 - after1).as_millis();
    assert!(duration_ms_2 >= 100);
    assert!(duration_ms_2 < 500);
}

#[test]
fn poll_decision_exact() {
    assert_eq!(SysTimer::poll_at(99, 100), TimerPoll::Pending);
    assert_eq!(SysTimer::poll_at(100, 100), TimerPoll::Ready);
    assert_eq!(SysTimer::poll_at(101, 100), TimerPoll::Ready);
    assert_eq!(SysTimer::poll_at(0, 0), TimerPoll::Ready);
}

#[test]
fn new_timer_has_zero_duration() {
    let timer = SysTimer::new();
    assert_eq!(timer.duration_ns, 0);
}
