use tuitui::pomodoro::{NotRunning, Pomodoro, PomodoroStatus};

/// The worked scenario: start at 0, pause at 3, resume at 6, pause at 8,
/// resume at 10, query at 13, with elapsed checkpoints 0, 3, 3, 5, 5, 8.
#[test]
fn test() {
    let mut p = Pomodoro::default();
    p.start(0);
    assert_eq!(p.elapsed_time(0), Ok(0));
    p.pause(3);
    assert_eq!(p.elapsed_time(3), Ok(3));
    p.start(6);
    assert_eq!(p.elapsed_time(6), Ok(3));
    p.pause(8);
    assert_eq!(p.elapsed_time(8), Ok(5));
    p.start(10);
    assert_eq!(p.elapsed_time(10), Ok(5));
    assert_eq!(p.elapsed_time(13), Ok(8));
    p.pause(13);
    assert_eq!(p.elapsed_time(15), Ok(8));
    p.stop();
    assert_eq!(p.status(), PomodoroStatus::Stopped);
}

#[test]
fn fresh_timer_has_no_elapsed_time() {
    let p = Pomodoro::new();
    assert_eq!(p.status(), PomodoroStatus::Stopped);
    assert_eq!(p.elapsed_time(0), Err(NotRunning));
    assert_eq!(p.elapsed_time(12345), Err(NotRunning));
    assert_eq!(p.elapsed_time(u64::MAX), Err(NotRunning));
}

#[test]
fn single_run_reports_whole_span() {
    let mut p = Pomodoro::new();
    p.start(100);
    assert_eq!(p.status(), PomodoroStatus::Running);
    assert_eq!(p.elapsed_time(100), Ok(0));
    assert_eq!(p.elapsed_time(101), Ok(1));
    assert_eq!(p.elapsed_time(163), Ok(63));
}

#[test]
fn pause_freezes_elapsed() {
    let mut p = Pomodoro::new();
    p.start(0);
    p.pause(3);
    assert_eq!(p.status(), PomodoroStatus::Paused);
    assert_eq!(p.elapsed_time(4), Ok(3));
    assert_eq!(p.elapsed_time(1000), Ok(3));
    assert_eq!(p.elapsed_time(u64::MAX), Ok(3));
}

#[test]
fn resume_folds_paused_interval() {
    let mut p = Pomodoro::new();
    p.start(0);
    p.pause(3);
    p.start(6);
    assert_eq!(p.status(), PomodoroStatus::Running);
    assert_eq!(p.elapsed_time(8), Ok(5));
}

#[test]
fn start_is_idempotent_while_running() {
    let mut p = Pomodoro::new();
    p.start(5);
    p.start(9);
    assert_eq!(p.status(), PomodoroStatus::Running);
    assert_eq!(p.elapsed_time(10), Ok(5));
}

#[test]
fn stop_then_start_begins_a_fresh_run() {
    let mut p = Pomodoro::new();
    p.start(0);
    p.pause(3);
    p.start(6);
    p.stop();
    assert_eq!(p.status(), PomodoroStatus::Stopped);
    assert_eq!(p.elapsed_time(7), Err(NotRunning));
    assert_eq!(p.elapsed_time(u64::MAX), Err(NotRunning));
    p.start(100);
    assert_eq!(p.elapsed_time(107), Ok(7));
}

#[test]
fn pause_from_stopped_keeps_elapsed_undefined() {
    let mut p = Pomodoro::new();
    p.pause(5);
    assert_eq!(p.status(), PomodoroStatus::Paused);
    assert_eq!(p.elapsed_time(9), Err(NotRunning));
    p.start(7);
    assert_eq!(p.status(), PomodoroStatus::Running);
    assert_eq!(p.elapsed_time(9), Err(NotRunning));
}

#[test]
fn repause_restarts_the_pause_clock() {
    let mut p = Pomodoro::new();
    p.start(0);
    p.pause(3);
    p.pause(5);
    assert_eq!(p.status(), PomodoroStatus::Paused);
    assert_eq!(p.elapsed_time(9), Ok(5));
}

#[test]
fn backwards_clock_floors_at_zero() {
    let mut p = Pomodoro::new();
    p.start(10);
    assert_eq!(p.elapsed_time(4), Ok(0));
    p.pause(2);
    assert_eq!(p.elapsed_time(100), Ok(0));
    p.start(1);
    assert_eq!(p.elapsed_time(30), Ok(20));
}

#[test]
fn folded_seconds_cap_at_the_largest_value() {
    let mut p = Pomodoro::new();
    p.start(0);
    p.pause(0);
    p.start(u64::MAX);
    assert_eq!(p.elapsed_time(u64::MAX), Ok(0));
    p.pause(0);
    p.start(1);
    assert_eq!(p.status(), PomodoroStatus::Running);
    assert_eq!(p.elapsed_time(u64::MAX), Ok(0));
}

#[test]
fn default_is_a_fresh_timer() {
    let p = Pomodoro::default();
    assert_eq!(p.status(), PomodoroStatus::Stopped);
    assert_eq!(p.elapsed_time(1), Err(NotRunning));
}
