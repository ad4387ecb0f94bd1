//! Behavior of the reset scheduler and the window-procedure state machine:
//! wake transitions arm a debounced one-shot reset; window events map to
//! the documented reactions.

use monitor_brightness::reset::{
    power_signal_from_raw, PowerSignal, ResetScheduler, RESET_DELAY_MS,
};
use monitor_brightness::window::{WindowEvent, WindowReaction, WindowState};

#[test]
fn off_then_on_arms_the_reset_timer() {
    let mut s = ResetScheduler::new();
    assert!(!s.on_power_signal(PowerSignal::Off, 1_000));
    assert!(s.on_power_signal(PowerSignal::On, 1_200));
    assert!(s.armed);
    assert_eq!(s.deadline_ms, 1_200 + RESET_DELAY_MS);
}

#[test]
fn flat_on_without_prior_off_is_inert() {
    let mut s = ResetScheduler::new();
    assert!(!s.on_power_signal(PowerSignal::On, 1_000));
    assert!(!s.armed);
}

#[test]
fn dimmed_counts_as_off() {
    let mut s = ResetScheduler::new();
    assert!(!s.on_power_signal(PowerSignal::Dimmed, 500));
    assert!(s.on_power_signal(PowerSignal::On, 900));
    assert_eq!(s.deadline_ms, 900 + RESET_DELAY_MS);
}

#[test]
fn timer_fires_once_at_its_deadline() {
    let mut s = ResetScheduler::new();
    s.on_power_signal(PowerSignal::Off, 0);
    s.on_power_signal(PowerSignal::On, 1_000);
    assert!(!s.fire_due(1_000 + RESET_DELAY_MS - 1));
    assert!(s.fire_due(1_000 + RESET_DELAY_MS));
    // fired once; nothing further without a new off→on cycle
    assert!(!s.fire_due(1_000 + 10 * RESET_DELAY_MS));
}

#[test]
fn two_cycles_in_the_window_emit_one_reset_timed_from_the_second() {
    let mut s = ResetScheduler::new();
    s.on_power_signal(PowerSignal::Off, 0);
    assert!(s.on_power_signal(PowerSignal::On, 1_000));
    let first_deadline = 1_000 + RESET_DELAY_MS;
    // second cycle before the first deadline re-arms (cancels the first)
    s.on_power_signal(PowerSignal::Off, 2_000);
    assert!(s.on_power_signal(PowerSignal::On, 3_000));
    let second_deadline = 3_000 + RESET_DELAY_MS;
    assert_eq!(s.deadline_ms, second_deadline);
    // nothing fires at the first cycle's deadline
    assert!(!s.fire_due(first_deadline));
    // exactly one reset, timed from the second cycle
    assert!(s.fire_due(second_deadline));
    assert!(!s.fire_due(second_deadline + RESET_DELAY_MS));
}

#[test]
fn power_signal_bytes_decode_as_documented() {
    assert_eq!(power_signal_from_raw(0), PowerSignal::Off);
    assert_eq!(power_signal_from_raw(1), PowerSignal::On);
    assert_eq!(power_signal_from_raw(2), PowerSignal::Dimmed);
    assert_eq!(power_signal_from_raw(3), PowerSignal::Other);
    assert_eq!(power_signal_from_raw(255), PowerSignal::Other);
}

#[test]
fn losing_focus_hides_and_suppresses_reopening() {
    let mut w = WindowState::new();
    assert_eq!(w.handle_event(WindowEvent::AppDeactivated, 0), WindowReaction::HideAndSuppress);
    assert!(w.lost_focus);
    // a click on the tray icon right after dismissal must not reopen
    assert_eq!(w.handle_event(WindowEvent::IconSelected, 50), WindowReaction::Ignore);
    assert_eq!(w.handle_event(WindowEvent::FocusTimerFired, 200), WindowReaction::EndSuppression);
    assert!(!w.lost_focus);
    assert_eq!(w.handle_event(WindowEvent::IconSelected, 300), WindowReaction::ShowAtTaskbar);
}

#[test]
fn destroy_quits_and_context_menu_closes() {
    let mut w = WindowState::new();
    assert_eq!(w.handle_event(WindowEvent::WindowDestroyed, 0), WindowReaction::QuitLoop);
    assert_eq!(w.handle_event(WindowEvent::IconContextMenu, 0), WindowReaction::CloseWindow);
    assert_eq!(w.handle_event(WindowEvent::AppActivated, 0), WindowReaction::Ignore);
}

#[test]
fn power_broadcasts_drive_the_reset_timer_through_the_window() {
    let mut w = WindowState::new();
    assert_eq!(w.handle_event(WindowEvent::Power(PowerSignal::Off), 100), WindowReaction::Ignore);
    assert_eq!(
        w.handle_event(WindowEvent::Power(PowerSignal::On), 400),
        WindowReaction::ArmResetTimer { delay_ms: RESET_DELAY_MS }
    );
    // the one-shot elapses: the window procedure sends the reset intent
    assert_eq!(
        w.handle_event(WindowEvent::ResetTimerFired, 400 + RESET_DELAY_MS),
        WindowReaction::SendReset
    );
    // a stray timer message after that is ignored
    assert_eq!(
        w.handle_event(WindowEvent::ResetTimerFired, 500 + RESET_DELAY_MS),
        WindowReaction::Ignore
    );
}
