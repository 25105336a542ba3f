use terminate_relay::client::listener::{
    capture_step, CaptureStep, KeyState, CAPTURE_GRACE_PAUSES, CAPTURE_PAUSE_MILLIS,
    CAPTURE_POLL_SECS,
};
use terminate_relay::client::web::WebEvent;
use terminate_relay::lifecycle::{GraceWait, InterruptAction, Interrupts, WaitStep};

#[test]
fn first_interrupt_begins_shutdown_and_the_next_forces_exit() {
    let mut interrupts = Interrupts::new();
    assert!(!interrupts.is_shutting_down());
    assert_eq!(interrupts.on_interrupt(), InterruptAction::BeginShutdown);
    assert!(interrupts.is_shutting_down());
    assert_eq!(interrupts.on_interrupt(), InterruptAction::ForceExit);
    assert_eq!(interrupts.on_interrupt(), InterruptAction::ForceExit);
    assert!(interrupts.is_shutting_down());
}

#[test]
fn wait_ends_at_once_for_a_thread_that_has_ended() {
    let mut wait = GraceWait::new(5);
    assert_eq!(wait.poll(true), WaitStep::Finished);
    assert_eq!(wait.remaining(), 5);
}

#[test]
fn wait_sleeps_as_often_as_it_was_given_pauses() {
    let mut wait = GraceWait::new(5);
    for left in [4, 3, 2, 1, 0] {
        assert_eq!(wait.poll(false), WaitStep::Sleep);
        assert_eq!(wait.remaining(), left);
    }
    assert_eq!(wait.poll(false), WaitStep::TimedOut);
    assert_eq!(wait.poll(false), WaitStep::TimedOut);
    assert_eq!(wait.remaining(), 0);
}

#[test]
fn wait_stops_sleeping_once_the_thread_has_ended() {
    let mut wait = GraceWait::new(3);
    assert_eq!(wait.poll(false), WaitStep::Sleep);
    assert_eq!(wait.poll(false), WaitStep::Sleep);
    assert_eq!(wait.poll(true), WaitStep::Finished);
    assert_eq!(wait.remaining(), 1);
}

#[test]
fn thread_that_ends_in_the_last_pause_is_not_timed_out() {
    let mut wait = GraceWait::new(1);
    assert_eq!(wait.poll(false), WaitStep::Sleep);
    assert_eq!(wait.poll(true), WaitStep::Finished);
}

#[test]
fn wait_without_pauses_times_out_at_once() {
    let mut wait = GraceWait::new(0);
    assert_eq!(wait.poll(false), WaitStep::TimedOut);
    let mut wait = GraceWait::new(0);
    assert_eq!(wait.poll(true), WaitStep::Finished);
}

#[test]
fn capture_constants() {
    assert_eq!(CAPTURE_POLL_SECS, 1);
    assert_eq!(CAPTURE_GRACE_PAUSES, 3);
    assert_eq!(CAPTURE_PAUSE_MILLIS, 1000);
}

#[test]
fn every_press_asks_for_a_terminate() {
    assert_eq!(capture_step(Some(KeyState::Pressed), false), CaptureStep::Emit(WebEvent::SendTerminate));
    assert_eq!(capture_step(Some(KeyState::Pressed), true), CaptureStep::Emit(WebEvent::SendTerminate));
}

#[test]
fn release_asks_for_nothing() {
    assert_eq!(capture_step(Some(KeyState::Released), false), CaptureStep::Wait);
    assert_eq!(capture_step(Some(KeyState::Released), true), CaptureStep::Wait);
}

#[test]
fn idle_poll_looks_at_the_stop_flag() {
    assert_eq!(capture_step(None, false), CaptureStep::Wait);
    assert_eq!(capture_step(None, true), CaptureStep::Exit);
}
