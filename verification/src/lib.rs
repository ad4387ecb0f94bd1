//! Coordination engine for a tray-resident display-brightness utility.
//!
//! A UI thread produces a rapid stream of brightness-change intents; physical
//! hardware accepts writes slowly and sometimes refuses them.  The modules
//! here hold the logic that sits between the two: coalescing bursts of
//! intents into one write per display, retrying failed writes with
//! exponential backoff, and re-applying levels after a monitor wakes from
//! sleep.  All hardware and OS calls live outside this crate; the host hands
//! plain values in and carries the decided actions out.

use vstd::prelude::*;

pub mod controller;
pub mod layout;
pub mod reset;
pub mod retry;
pub mod text;
pub mod window;

verus! {

/// An intent travelling through the event mailbox from the UI and
/// window-procedure threads to the worker that owns the hardware.
#[derive(Clone, Copy, Debug, PartialEq, Eq, Structural)]
pub enum BrightnessEvent {
    /// The user asked for the display with this index to be set to this level.
    Change(usize, u32),
    /// Re-apply the last intended level to every display.
    Reset,
    /// Stop the coordination loop at once.
    Quit,
}

/// What one poll of the event mailbox produced.
#[derive(Clone, Copy, Debug, PartialEq, Eq, Structural)]
pub enum MailboxPoll {
    /// An intent was waiting.
    Received(BrightnessEvent),
    /// Nothing is queued right now.
    Empty,
    /// Every producer is gone; no intent can ever arrive again.
    Closed,
}

} // verus!
