use arena_survival::survival_timer::{
    format_time, pause_timer, resume_timer, start_timer, stop_timer, tick_timer, SurvivalTimer,
};
use arena_survival::timer::{Countdown, Stopwatch};

#[test]
fn countdown_finishes_and_stays() {
    let mut c = Countdown::new(500);
    c.tick(499);
    assert!(!c.is_finished());
    c.tick(1);
    assert!(c.is_finished());
    assert_eq!(c.elapsed_ms, 500);
    c.tick(100);
    assert_eq!(c.elapsed_ms, 500);
}

#[test]
fn stopwatch_pauses() {
    let mut s = Stopwatch::new();
    s.tick(1500);
    s.pause();
    s.tick(1000);
    assert_eq!(s.elapsed_secs(), 1);
    s.unpause();
    s.tick(600);
    assert_eq!(s.elapsed_ms, 2100);
    s.reset();
    assert_eq!(s.elapsed_ms, 0);
}

#[test]
fn survival_timer_lifecycle() {
    let mut t = SurvivalTimer::new();
    tick_timer(&mut t, 1000);
    assert_eq!(t.elapsed_ms(), 0);
    start_timer(&mut t);
    tick_timer(&mut t, 1000);
    pause_timer(&mut t);
    tick_timer(&mut t, 1000);
    assert_eq!(t.elapsed_ms(), 1000);
    resume_timer(&mut t);
    tick_timer(&mut t, 250);
    assert_eq!(t.elapsed_ms(), 1250);
    stop_timer(&mut t);
    assert_eq!(t.elapsed_ms(), 0);
}

#[test]
fn format_time_pads() {
    assert_eq!(format_time(0), "00:00");
    assert_eq!(format_time(65), "01:05");
    assert_eq!(format_time(600), "10:00");
    assert_eq!(format_time(6000), "100:00");
}
