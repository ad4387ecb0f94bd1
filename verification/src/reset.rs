//! The reset scheduler: re-apply brightness a few seconds after a monitor
//! wakes, debounced.
//!
//! Some monitors silently fall back to a factory brightness while waking
//! from sleep.  When the OS reports the display going off (or dimming) and
//! later coming back on, a one-shot timer is armed; when it elapses, a
//! `Reset` intent is injected into the mailbox so the worker re-applies the
//! last intended levels.  A second off→on cycle before the timer elapses
//! re-arms it — the pending reset is cancelled and timed afresh from the
//! newer wake, so one reset is emitted per settled wake, not one per cycle.

use vstd::prelude::*;

verus! {

/// Milliseconds between a wake transition and the reset it schedules.
pub const RESET_DELAY_MS: u64 = 5000;

/// A console-display power transition, as decoded from a power broadcast.
#[derive(Clone, Copy, Debug, PartialEq, Eq, Structural)]
pub enum PowerSignal {
    /// The display turned off.
    Off,
    /// The display turned on.
    On,
    /// The display dimmed; treated like turning off.
    Dimmed,
    /// A state this component does not react to.
    Other,
}

/// The display-state byte of a power broadcast, decoded.
pub open spec fn power_signal_spec(raw: u8) -> PowerSignal {
    if raw == 0 {
        PowerSignal::Off
    } else if raw == 1 {
        PowerSignal::On
    } else if raw == 2 {
        PowerSignal::Dimmed
    } else {
        PowerSignal::Other
    }
}

/// Decode the display-state byte carried by a power broadcast.
pub fn power_signal_from_raw(raw: u8) -> (signal: PowerSignal)
    ensures
        signal == power_signal_spec(raw),
{
    if raw == 0 {
        PowerSignal::Off
    } else if raw == 1 {
        PowerSignal::On
    } else if raw == 2 {
        PowerSignal::Dimmed
    } else {
        PowerSignal::Other
    }
}

/// The scheduler's state: whether an off/dimmed report has been seen since
/// the last wake, and the one-shot timer (`deadline_ms` is meaningful only
/// while `armed`).
#[derive(Clone, Copy, Debug, PartialEq, Eq, Structural)]
pub struct ResetScheduler {
    pub off_seen: bool,
    pub armed: bool,
    pub deadline_ms: u64,
}

/// State after one power signal, and whether the one-shot timer was
/// (re-)armed by it.  Only a transition from a seen off/dimmed state to `On`
/// arms the timer; arming replaces any timer already pending, timed from
/// `now_ms`.
pub open spec fn scheduler_signal_spec(
    state: ResetScheduler,
    signal: PowerSignal,
    now_ms: u64,
) -> (ResetScheduler, bool) {
    match signal {
        PowerSignal::Off | PowerSignal::Dimmed => (
            ResetScheduler { off_seen: true, armed: state.armed, deadline_ms: state.deadline_ms },
            false,
        ),
        PowerSignal::On => if state.off_seen {
            (
                ResetScheduler {
                    off_seen: false,
                    armed: true,
                    deadline_ms: (now_ms + RESET_DELAY_MS) as u64,
                },
                true,
            )
        } else {
            (state, false)
        },
        PowerSignal::Other => (state, false),
    }
}

/// State after polling the timer at `now_ms`, and whether it fired: it fires
/// exactly when armed and due, and firing disarms it.
pub open spec fn scheduler_fire_spec(state: ResetScheduler, now_ms: u64) -> (
    ResetScheduler,
    bool,
) {
    if state.armed && now_ms >= state.deadline_ms {
        (
            ResetScheduler {
                off_seen: state.off_seen,
                armed: false,
                deadline_ms: state.deadline_ms,
            },
            true,
        )
    } else {
        (state, false)
    }
}

impl ResetScheduler {
    /// A fresh scheduler: no off state seen, no timer pending.
    pub fn new() -> (scheduler: ResetScheduler)
        ensures
            !scheduler.off_seen,
            !scheduler.armed,
    {
        ResetScheduler { off_seen: false, armed: false, deadline_ms: 0 }
    }

    /// React to one power signal; returns whether the one-shot timer was
    /// (re-)armed, in which case the host must start its timer for
    /// [`RESET_DELAY_MS`] (replacing a pending one).
    pub fn on_power_signal(&mut self, signal: PowerSignal, now_ms: u64) -> (armed: bool)
        requires
            now_ms + RESET_DELAY_MS <= u64::MAX,
        ensures
            *final(self) == scheduler_signal_spec(*old(self), signal, now_ms).0,
            armed == scheduler_signal_spec(*old(self), signal, now_ms).1,
            armed ==> final(self).armed && final(self).deadline_ms == now_ms + RESET_DELAY_MS,
    {
        match signal {
            PowerSignal::Off | PowerSignal::Dimmed => {
                self.off_seen = true;
                false
            },
            PowerSignal::On => {
                if self.off_seen {
                    self.off_seen = false;
                    self.armed = true;
                    self.deadline_ms = now_ms + RESET_DELAY_MS;
                    true
                } else {
                    false
                }
            },
            PowerSignal::Other => false,
        }
    }

    /// Poll the one-shot timer at `now_ms`; returns whether it fired, in
    /// which case the host must inject a `Reset` intent into the mailbox.
    pub fn fire_due(&mut self, now_ms: u64) -> (fired: bool)
        ensures
            *final(self) == scheduler_fire_spec(*old(self), now_ms).0,
            fired == scheduler_fire_spec(*old(self), now_ms).1,
    {
        if self.armed && now_ms >= self.deadline_ms {
            self.armed = false;
            true
        } else {
            false
        }
    }
}

/// Debounced reset arming: two off→on cycles with the second wake inside
/// the first wake's delay window leave a single timer pending, timed from
/// the second wake.  Polls before that deadline emit nothing — in
/// particular, nothing fires at the first wake's deadline — one poll at or
/// after it emits exactly one reset, and further polls emit nothing until a
/// new off→on cycle arms the timer again.
pub proof fn lemma_reset_debounce(
    initial: ResetScheduler,
    first_off_ms: u64,
    first_on_ms: u64,
    second_off_ms: u64,
    second_on_ms: u64,
    poll_ms: u64,
)
    requires
        first_on_ms + RESET_DELAY_MS <= u64::MAX,
        second_on_ms + RESET_DELAY_MS <= u64::MAX,
        second_on_ms < first_on_ms + RESET_DELAY_MS,
        poll_ms >= second_on_ms + RESET_DELAY_MS,
    ensures
        ({
            let after_first_off = scheduler_signal_spec(initial, PowerSignal::Off, first_off_ms).0;
            let first_wake = scheduler_signal_spec(after_first_off, PowerSignal::On, first_on_ms);
            let after_second_off = scheduler_signal_spec(
                first_wake.0,
                PowerSignal::Off,
                second_off_ms,
            ).0;
            let second_wake = scheduler_signal_spec(
                after_second_off,
                PowerSignal::On,
                second_on_ms,
            );
            let fired = scheduler_fire_spec(second_wake.0, poll_ms);
            &&& first_wake.1
            &&& second_wake.1
            &&& second_wake.0.armed
            &&& second_wake.0.deadline_ms == second_on_ms + RESET_DELAY_MS
            &&& forall|early_ms: u64| early_ms < second_on_ms + RESET_DELAY_MS
                ==> !(#[trigger] scheduler_fire_spec(second_wake.0, early_ms)).1
            &&& fired.1
            &&& forall|later_ms: u64| !(#[trigger] scheduler_fire_spec(fired.0, later_ms)).1
        }),
{
}

} // verus!
