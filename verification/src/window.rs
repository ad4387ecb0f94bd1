//! Decisions of the tray window's message procedure.
//!
//! The window procedure runs on the UI thread and must only decide, never
//! block: every event maps to one reaction that the host carries out with
//! OS calls (hide or show the window, start or stop timers, post a quit,
//! send an intent into the mailbox).  The state is the two flags the
//! procedure keeps between messages: whether the window just lost focus,
//! and the reset scheduler's state.

use vstd::prelude::*;

verus! {

use crate::reset::{
    PowerSignal, ResetScheduler, scheduler_fire_spec, scheduler_signal_spec, RESET_DELAY_MS,
};

/// Milliseconds the window stays unresponsive to the tray icon after losing
/// focus, so the click that dismissed it does not immediately re-open it.
pub const FOCUS_SUPPRESS_MS: u64 = 200;

/// One message the window procedure decides on.
#[derive(Clone, Copy, Debug, PartialEq, Eq, Structural)]
pub enum WindowEvent {
    /// The application became active again.
    AppActivated,
    /// The application lost the foreground.
    AppDeactivated,
    /// The focus-suppression timer elapsed.
    FocusTimerFired,
    /// The reset one-shot timer elapsed.
    ResetTimerFired,
    /// The window is being destroyed.
    WindowDestroyed,
    /// The tray icon was selected (left click).
    IconSelected,
    /// The tray icon's context menu was requested (right click).
    IconContextMenu,
    /// A power broadcast reported a display-state transition.
    Power(PowerSignal),
}

/// What the host must do in response to one event.
#[derive(Clone, Copy, Debug, PartialEq, Eq, Structural)]
pub enum WindowReaction {
    /// Hide the window and start the focus-suppression timer for
    /// [`FOCUS_SUPPRESS_MS`].
    HideAndSuppress,
    /// Stop the focus-suppression timer.
    EndSuppression,
    /// Stop the reset timer and send a `Reset` intent into the mailbox.
    SendReset,
    /// Ask the message loop to quit.
    QuitLoop,
    /// Reposition the window beside the taskbar, show it, and bring it to
    /// the foreground.
    ShowAtTaskbar,
    /// Close the window.
    CloseWindow,
    /// Start the one-shot reset timer for this many milliseconds, replacing
    /// a pending one.
    ArmResetTimer { delay_ms: u64 },
    /// Nothing to do.
    Ignore,
}

/// The state the window procedure keeps between messages.
#[derive(Clone, Copy, Debug, PartialEq, Eq, Structural)]
pub struct WindowState {
    pub lost_focus: bool,
    pub reset: ResetScheduler,
}

/// The window procedure as a function: state and event in, state and
/// reaction out.
pub open spec fn window_step_spec(state: WindowState, event: WindowEvent, now_ms: u64) -> (
    WindowState,
    WindowReaction,
) {
    match event {
        WindowEvent::AppActivated => (state, WindowReaction::Ignore),
        WindowEvent::AppDeactivated => (
            WindowState { lost_focus: true, reset: state.reset },
            WindowReaction::HideAndSuppress,
        ),
        WindowEvent::FocusTimerFired => (
            WindowState { lost_focus: false, reset: state.reset },
            WindowReaction::EndSuppression,
        ),
        WindowEvent::ResetTimerFired => {
            let polled = scheduler_fire_spec(state.reset, now_ms);
            (
                WindowState { lost_focus: state.lost_focus, reset: polled.0 },
                if polled.1 {
                    WindowReaction::SendReset
                } else {
                    WindowReaction::Ignore
                },
            )
        },
        WindowEvent::WindowDestroyed => (state, WindowReaction::QuitLoop),
        WindowEvent::IconSelected => (
            state,
            if state.lost_focus {
                WindowReaction::Ignore
            } else {
                WindowReaction::ShowAtTaskbar
            },
        ),
        WindowEvent::IconContextMenu => (state, WindowReaction::CloseWindow),
        WindowEvent::Power(signal) => {
            let signalled = scheduler_signal_spec(state.reset, signal, now_ms);
            (
                WindowState { lost_focus: state.lost_focus, reset: signalled.0 },
                if signalled.1 {
                    WindowReaction::ArmResetTimer { delay_ms: RESET_DELAY_MS }
                } else {
                    WindowReaction::Ignore
                },
            )
        },
    }
}

impl WindowState {
    /// The state at window creation: focused, nothing seen, nothing armed.
    pub fn new() -> (state: WindowState)
        ensures
            !state.lost_focus,
            !state.reset.off_seen,
            !state.reset.armed,
    {
        WindowState { lost_focus: false, reset: ResetScheduler::new() }
    }

    /// Decide on one event; `now_ms` is the host's monotonic clock.
    pub fn handle_event(&mut self, event: WindowEvent, now_ms: u64) -> (reaction: WindowReaction)
        requires
            now_ms + RESET_DELAY_MS <= u64::MAX,
        ensures
            *final(self) == window_step_spec(*old(self), event, now_ms).0,
            reaction == window_step_spec(*old(self), event, now_ms).1,
    {
        match event {
            WindowEvent::AppActivated => WindowReaction::Ignore,
            WindowEvent::AppDeactivated => {
                self.lost_focus = true;
                WindowReaction::HideAndSuppress
            },
            WindowEvent::FocusTimerFired => {
                self.lost_focus = false;
                WindowReaction::EndSuppression
            },
            WindowEvent::ResetTimerFired => {
                if self.reset.fire_due(now_ms) {
                    WindowReaction::SendReset
                } else {
                    WindowReaction::Ignore
                }
            },
            WindowEvent::WindowDestroyed => WindowReaction::QuitLoop,
            WindowEvent::IconSelected => {
                if self.lost_focus {
                    WindowReaction::Ignore
                } else {
                    WindowReaction::ShowAtTaskbar
                }
            },
            WindowEvent::IconContextMenu => WindowReaction::CloseWindow,
            WindowEvent::Power(signal) => {
                if self.reset.on_power_signal(signal, now_ms) {
                    WindowReaction::ArmResetTimer { delay_ms: RESET_DELAY_MS }
                } else {
                    WindowReaction::Ignore
                }
            },
        }
    }
}

} // verus!
