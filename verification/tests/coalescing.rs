//! Behavior of the coalescing controller: bursts collapse to one write per
//! display, resets re-apply everything, quit stops the loop cold.

use monitor_brightness::controller::{Controller, DrainStep, PlannedWrite, TargetBounds};
use monitor_brightness::{BrightnessEvent, MailboxPoll};

fn controller_with(levels: &[u32]) -> Controller {
    let bounds = levels
        .iter()
        .map(|_| TargetBounds { min_level: 0, max_level: 100 })
        .collect::<Vec<_>>();
    Controller::new(bounds, levels.to_vec())
}

#[test]
fn burst_collapses_to_last_value() {
    let mut c = controller_with(&[50]);
    for level in [10u32, 30, 20] {
        let step = c.drain_step(MailboxPoll::Received(BrightnessEvent::Change(0, level)));
        assert_eq!(step, DrainStep::KeepDraining);
    }
    let step = c.drain_step(MailboxPoll::Empty);
    assert_eq!(step, DrainStep::ApplyChanged);
    let plan = c.plan_writes(false);
    assert_eq!(plan, vec![PlannedWrite { target: 0, level: 20 }]);
}

#[test]
fn per_target_independence() {
    let mut c = controller_with(&[50, 50]);
    c.drain_step(MailboxPoll::Received(BrightnessEvent::Change(1, 80)));
    c.drain_step(MailboxPoll::Received(BrightnessEvent::Change(0, 25)));
    c.drain_step(MailboxPoll::Received(BrightnessEvent::Change(1, 75)));
    let step = c.drain_step(MailboxPoll::Empty);
    assert_eq!(step, DrainStep::ApplyChanged);
    let plan = c.plan_writes(false);
    assert_eq!(
        plan,
        vec![
            PlannedWrite { target: 0, level: 25 },
            PlannedWrite { target: 1, level: 75 },
        ]
    );
}

#[test]
fn unchanged_level_is_skipped_on_ordinary_drain() {
    let mut c = controller_with(&[50, 60]);
    c.drain_step(MailboxPoll::Received(BrightnessEvent::Change(0, 50)));
    let step = c.drain_step(MailboxPoll::Empty);
    assert_eq!(step, DrainStep::ApplyChanged);
    assert_eq!(c.plan_writes(false), vec![]);
}

#[test]
fn reset_applies_every_target_unconditionally() {
    let mut c = controller_with(&[50, 60]);
    c.drain_step(MailboxPoll::Received(BrightnessEvent::Change(0, 70)));
    let step = c.drain_step(MailboxPoll::Received(BrightnessEvent::Reset));
    assert_eq!(step, DrainStep::ApplyAll);
    let plan = c.plan_writes(true);
    assert_eq!(
        plan,
        vec![
            PlannedWrite { target: 0, level: 70 },
            // unchanged since startup, still written after a reset
            PlannedWrite { target: 1, level: 60 },
        ]
    );
}

#[test]
fn reset_as_first_event_still_applies_all() {
    let mut c = controller_with(&[40, 41, 42]);
    let step = c.drain_step(MailboxPoll::Received(BrightnessEvent::Reset));
    assert_eq!(step, DrainStep::ApplyAll);
    let plan = c.plan_writes(true);
    assert_eq!(plan.len(), 3);
    for (i, write) in plan.iter().enumerate() {
        assert_eq!(write.target, i);
        assert_eq!(write.level, 40 + i as u32);
    }
}

#[test]
fn quit_terminates_without_applying_queued_changes() {
    let mut c = controller_with(&[50]);
    c.drain_step(MailboxPoll::Received(BrightnessEvent::Change(0, 70)));
    let step = c.drain_step(MailboxPoll::Received(BrightnessEvent::Quit));
    assert_eq!(step, DrainStep::Shutdown);
    // the loop exits here: a change queued behind the quit is never absorbed
    assert_eq!(c.pending_level(0), 70);
}

#[test]
fn empty_drain_owes_no_writes() {
    let mut c = controller_with(&[50, 60]);
    let step = c.drain_step(MailboxPoll::Empty);
    assert_eq!(step, DrainStep::ApplyChanged);
    assert_eq!(c.plan_writes(false), vec![]);
}

#[test]
fn closed_mailbox_shuts_the_loop_down() {
    let mut c = controller_with(&[50]);
    let step = c.drain_step(MailboxPoll::Closed);
    assert_eq!(step, DrainStep::Shutdown);
}

#[test]
fn failed_write_stays_owed_until_confirmed() {
    let mut c = controller_with(&[50]);
    c.drain_step(MailboxPoll::Received(BrightnessEvent::Change(0, 70)));
    c.drain_step(MailboxPoll::Empty);
    assert_eq!(c.plan_writes(false), vec![PlannedWrite { target: 0, level: 70 }]);
    // the hardware write failed, so nothing is recorded: the next ordinary
    // pass still owes the same write, even with no new intent for it
    assert_eq!(c.plan_writes(false), vec![PlannedWrite { target: 0, level: 70 }]);
    // once confirmed, the debt is gone
    c.record_applied(0, 70);
    assert_eq!(c.plan_writes(false), vec![]);
}

#[test]
fn change_overwrites_only_its_own_target() {
    let mut c = controller_with(&[1, 2, 3]);
    c.drain_step(MailboxPoll::Received(BrightnessEvent::Change(1, 99)));
    assert_eq!(c.pending_level(0), 1);
    assert_eq!(c.pending_level(1), 99);
    assert_eq!(c.pending_level(2), 3);
    assert_eq!(c.num_targets(), 3);
}

#[test]
fn clamped_level_respects_each_targets_bounds() {
    let bounds = vec![
        TargetBounds { min_level: 0, max_level: 100 },
        TargetBounds { min_level: 20, max_level: 80 },
    ];
    let c = Controller::new(bounds, vec![50, 50]);
    assert_eq!(c.clamped_level_for(0, 150), 100);
    assert_eq!(c.clamped_level_for(1, 150), 80);
    assert_eq!(c.clamped_level_for(1, 5), 20);
    assert_eq!(c.clamped_level_for(1, 50), 50);
}
