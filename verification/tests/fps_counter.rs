use tasbot_eyes::fps_counter::{timer_action, FpsCounter, TimerAction, SHUTDOWN_SENTINEL};
use tasbot_eyes::lifecycle::{LifecycleError, Phase};

fn running_counter() -> FpsCounter {
    let mut c = FpsCounter::new(String::from("fps_before_queue"));
    c.start().unwrap();
    c
}

#[test]
fn sequential_frames_are_counted_exactly() {
    let mut c = running_counter();
    for _ in 0..7 {
        c.process_frame().unwrap();
    }
    assert_eq!(c.counter, 7);
    assert_eq!(c.drain(), 7);
    assert_eq!(c.counter, 0);
}

#[test]
fn drain_resets_and_later_intervals_start_from_zero() {
    let mut c = running_counter();
    for _ in 0..3 {
        c.process_frame().unwrap();
    }
    assert_eq!(c.drain(), 3);
    for _ in 0..2 {
        c.process_frame().unwrap();
    }
    assert_eq!(c.drain(), 2);
    assert_eq!(c.drain(), 0);
}

#[test]
fn process_without_start_is_refused() {
    let mut c = FpsCounter::new(String::from("idle"));
    assert_eq!(c.process_frame(), Err(LifecycleError::NotRunning));
    assert_eq!(c.counter, 0);
}

#[test]
fn counter_start_while_running_is_refused() {
    let mut c = running_counter();
    c.process_frame().unwrap();
    assert_eq!(c.start(), Err(LifecycleError::AlreadyRunning));
    assert_eq!(c.counter, 1);
}

#[test]
fn honest_counts_are_reported() {
    assert_eq!(timer_action(0), TimerAction::Report(0));
    assert_eq!(timer_action(42), TimerAction::Report(42));
    assert_eq!(timer_action(SHUTDOWN_SENTINEL - 1), TimerAction::Report(SHUTDOWN_SENTINEL - 1));
}

#[test]
fn sentinel_counts_exit_the_timer_task() {
    assert_eq!(timer_action(SHUTDOWN_SENTINEL), TimerAction::Exit);
    assert_eq!(timer_action(u64::MAX), TimerAction::Exit);
}

#[test]
fn stop_signals_the_timer_task() {
    let mut c = running_counter();
    for _ in 0..5 {
        c.process_frame().unwrap();
    }
    c.stop();
    assert_eq!(c.phase, Phase::Stopped);
    // The next drain of the shared counter reads the sentinel and exits.
    let drained = c.drain();
    assert_eq!(drained, SHUTDOWN_SENTINEL);
    assert_eq!(timer_action(drained), TimerAction::Exit);
}

#[test]
fn stop_twice_is_a_no_op() {
    let mut c = running_counter();
    c.stop();
    let phase = c.phase;
    let counter = c.counter;
    c.stop();
    assert_eq!(c.phase, phase);
    assert_eq!(c.counter, counter);
}

#[test]
fn stop_before_start_changes_nothing() {
    let mut c = FpsCounter::new(String::from("never_started"));
    c.stop();
    assert_eq!(c.phase, Phase::Unstarted);
    assert_eq!(c.counter, 0);
}

#[test]
fn counter_restarts_after_stop() {
    let mut c = running_counter();
    c.process_frame().unwrap();
    c.stop();
    c.start().unwrap();
    assert_eq!(c.counter, 0);
    c.process_frame().unwrap();
    assert_eq!(c.counter, 1);
}
