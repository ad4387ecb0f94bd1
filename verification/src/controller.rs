//! The coalescing loop's state: intended levels per display, last confirmed
//! levels, and the drain/apply decisions.
//!
//! The worker thread blocks on the mailbox, then drains everything queued
//! before touching hardware, so a burst of slider events collapses to one
//! write per display (latest value wins).  A `Reset` intent ends a drain and
//! forces every display to be re-applied; an empty mailbox ends a drain and
//! applies only displays whose intended level differs from the last level
//! confirmed written.  `Quit`, or a mailbox whose producers are all gone,
//! ends the loop at once.

use vstd::prelude::*;

verus! {

use crate::{BrightnessEvent, MailboxPoll};
use crate::retry::clamp_spec;

/// The brightness range one display supports, as reported by enumeration.
#[derive(Clone, Copy, Debug, PartialEq, Eq, Structural)]
pub struct TargetBounds {
    pub min_level: u32,
    pub max_level: u32,
}

impl TargetBounds {
    /// A usable range is non-empty.
    pub open spec fn wf(self) -> bool {
        self.min_level <= self.max_level
    }
}

/// What the coalescing loop must do after feeding one mailbox poll in.
#[derive(Clone, Copy, Debug, PartialEq, Eq, Structural)]
pub enum DrainStep {
    /// A change was absorbed; keep polling the mailbox.
    KeepDraining,
    /// A `Reset` ended the drain: write every display.
    ApplyAll,
    /// The mailbox ran empty: write only displays whose intended level
    /// changed since it was last confirmed.
    ApplyChanged,
    /// `Quit` arrived or the mailbox is closed: exit the loop, writing
    /// nothing further.
    Shutdown,
}

/// One hardware write the apply phase owes: set `target` to `level`
/// (clamped to the target's own range at write time).
#[derive(Clone, Copy, Debug, PartialEq, Eq, Structural)]
pub struct PlannedWrite {
    pub target: usize,
    pub level: u32,
}

/// The step the loop takes for one mailbox poll.
pub open spec fn poll_step(poll: MailboxPoll) -> DrainStep {
    match poll {
        MailboxPoll::Received(event) => match event {
            BrightnessEvent::Change(_, _) => DrainStep::KeepDraining,
            BrightnessEvent::Reset => DrainStep::ApplyAll,
            BrightnessEvent::Quit => DrainStep::Shutdown,
        },
        MailboxPoll::Empty => DrainStep::ApplyChanged,
        MailboxPoll::Closed => DrainStep::Shutdown,
    }
}

/// The intended levels after one event is absorbed: a change overwrites the
/// entry for its target, anything else leaves the levels alone.
pub open spec fn absorb_event(pending: Seq<u32>, event: BrightnessEvent) -> Seq<u32> {
    match event {
        BrightnessEvent::Change(target, level) => if (target as int) < pending.len() {
            pending.update(target as int, level)
        } else {
            pending
        },
        _ => pending,
    }
}

/// The intended levels after one full drain of `queue`: changes are absorbed
/// in order until the first non-change event (or the queue's end) stops the
/// drain.
pub open spec fn drained_levels(pending: Seq<u32>, queue: Seq<BrightnessEvent>) -> Seq<u32>
    decreases queue.len(),
{
    if queue.len() == 0 {
        pending
    } else {
        match queue[0] {
            BrightnessEvent::Change(_, _) => drained_levels(
                absorb_event(pending, queue[0]),
                queue.drop_first(),
            ),
            _ => pending,
        }
    }
}

/// What a full drain of `queue` (ending in an empty mailbox if no terminator
/// is queued) decides to do next.
pub open spec fn drain_outcome(queue: Seq<BrightnessEvent>) -> DrainStep
    decreases queue.len(),
{
    if queue.len() == 0 {
        DrainStep::ApplyChanged
    } else {
        match queue[0] {
            BrightnessEvent::Change(_, _) => drain_outcome(queue.drop_first()),
            BrightnessEvent::Reset => DrainStep::ApplyAll,
            BrightnessEvent::Quit => DrainStep::Shutdown,
        }
    }
}

/// How many events a full drain of `queue` takes off the mailbox: every
/// change up to and including the first terminator.
pub open spec fn drain_consumed(queue: Seq<BrightnessEvent>) -> int
    decreases queue.len(),
{
    if queue.len() == 0 {
        0
    } else {
        match queue[0] {
            BrightnessEvent::Change(_, _) => 1 + drain_consumed(queue.drop_first()),
            _ => 1,
        }
    }
}

/// The level of the last change for `target` that a drain of `queue` would
/// absorb, if any change for it is consumed at all.
pub open spec fn last_consumed_change(queue: Seq<BrightnessEvent>, target: usize)
    -> Option<u32>
    decreases queue.len(),
{
    if queue.len() == 0 {
        None
    } else {
        match queue[0] {
            BrightnessEvent::Change(first_target, first_level) => {
                let rest = last_consumed_change(queue.drop_first(), target);
                if rest is Some {
                    rest
                } else if first_target == target {
                    Some(first_level)
                } else {
                    None
                }
            },
            _ => None,
        }
    }
}

/// The writes owed after a drain, in ascending target order: under
/// `apply_all` every target with its intended level; otherwise only targets
/// whose intended level differs from the last confirmed one.  `from` is the
/// first target still to consider.
pub open spec fn write_plan_from(
    pending: Seq<u32>,
    applied: Seq<u32>,
    apply_all: bool,
    from: int,
) -> Seq<PlannedWrite>
    decreases pending.len() - from,
{
    if from < 0 || from >= pending.len() {
        Seq::empty()
    } else {
        let rest = write_plan_from(pending, applied, apply_all, from + 1);
        if apply_all || pending[from] != applied[from] {
            seq![(PlannedWrite { target: from as usize, level: pending[from] })] + rest
        } else {
            rest
        }
    }
}

/// The writes a plan owes one particular target, in order.
pub open spec fn writes_for(plan: Seq<PlannedWrite>, target: usize) -> Seq<PlannedWrite>
    decreases plan.len(),
{
    if plan.len() == 0 {
        Seq::empty()
    } else if plan[0].target == target {
        seq![plan[0]] + writes_for(plan.drop_first(), target)
    } else {
        writes_for(plan.drop_first(), target)
    }
}

/// Splitting off the head of a plan splits its per-target writes.
proof fn lemma_writes_for_cons(head: PlannedWrite, rest: Seq<PlannedWrite>, target: usize)
    ensures
        writes_for(seq![head] + rest, target) == (if head.target == target {
            seq![head] + writes_for(rest, target)
        } else {
            writes_for(rest, target)
        }),
{
    let whole = seq![head] + rest;
    assert(whole[0] == head);
    assert(whole.drop_first() =~= rest);
}

/// What a plan owes one target, exactly: one write of the intended level if
/// the target is due (always under `apply_all`, otherwise only when its
/// intended level differs from the confirmed one), and nothing otherwise.
pub proof fn lemma_plan_writes_for(
    pending: Seq<u32>,
    applied: Seq<u32>,
    apply_all: bool,
    from: int,
    target: usize,
)
    requires
        0 <= from,
        pending.len() <= usize::MAX,
    ensures
        writes_for(write_plan_from(pending, applied, apply_all, from), target)
            == (if from <= target < pending.len()
                && (apply_all || pending[target as int] != applied[target as int]) {
                seq![(PlannedWrite { target, level: pending[target as int] })]
            } else {
                Seq::<PlannedWrite>::empty()
            }),
    decreases pending.len() - from,
{
    if from >= pending.len() {
        // nothing is planned from here on
    } else {
        lemma_plan_writes_for(pending, applied, apply_all, from + 1, target);
        let rest = write_plan_from(pending, applied, apply_all, from + 1);
        if apply_all || pending[from] != applied[from] {
            let head = PlannedWrite { target: from as usize, level: pending[from] };
            lemma_writes_for_cons(head, rest, target);
            if from == target {
                assert(seq![head] + writes_for(rest, target) =~= seq![head]);
            }
        }
    }
}

/// A drain never changes how many displays there are.
pub proof fn lemma_drained_levels_len(pending: Seq<u32>, queue: Seq<BrightnessEvent>)
    ensures
        drained_levels(pending, queue).len() == pending.len(),
    decreases queue.len(),
{
    if queue.len() > 0 && queue[0] is Change {
        lemma_drained_levels_len(absorb_event(pending, queue[0]), queue.drop_first());
    }
}

/// Pointwise effect of a drain: a display ends at the level of the last
/// change for it that the drain consumed, or stays where it was if the drain
/// consumed none.
pub proof fn lemma_drain_last_wins(
    pending: Seq<u32>,
    queue: Seq<BrightnessEvent>,
    target: usize,
)
    requires
        (target as int) < pending.len(),
    ensures
        drained_levels(pending, queue)[target as int] == (match last_consumed_change(
            queue,
            target,
        ) {
            Some(level) => level,
            None => pending[target as int],
        }),
    decreases queue.len(),
{
    if queue.len() > 0 && queue[0] is Change {
        lemma_drain_last_wins(absorb_event(pending, queue[0]), queue.drop_first(), target);
    }
}

/// A drain consumes exactly the changes before the first terminator and the
/// terminator itself; everything queued behind the terminator is left in the
/// mailbox and has no effect on the drained levels.
pub proof fn lemma_drain_stops_at_terminator(
    pending: Seq<u32>,
    queue: Seq<BrightnessEvent>,
    terminator_at: int,
)
    requires
        0 <= terminator_at < queue.len(),
        !(queue[terminator_at] is Change),
        forall|j: int| 0 <= j < terminator_at ==> #[trigger] queue[j] is Change,
    ensures
        drain_consumed(queue) == terminator_at + 1,
        queue[terminator_at] is Reset ==> drain_outcome(queue) == DrainStep::ApplyAll,
        queue[terminator_at] is Quit ==> drain_outcome(queue) == DrainStep::Shutdown,
        drained_levels(pending, queue) == drained_levels(
            pending,
            queue.take(terminator_at),
        ),
    decreases queue.len(),
{
    if terminator_at == 0 {
        assert(drained_levels(pending, queue.take(0)) =~= pending);
    } else {
        let absorbed = absorb_event(pending, queue[0]);
        lemma_drain_stops_at_terminator(absorbed, queue.drop_first(), terminator_at - 1);
        assert(queue.drop_first().take(terminator_at - 1)
            =~= queue.take(terminator_at).drop_first());
    }
}

/// Coalescing correctness: when a drained burst's last change for a display
/// asks for `level`, the display's intended level becomes exactly `level`,
/// and the apply phase issues exactly one write for it — of `level`, never
/// of an intermediate value.  On an ordinary drain the one write is issued
/// precisely when `level` differs from the last confirmed level; a
/// reset-terminated drain issues it unconditionally.
pub proof fn lemma_coalescing_last_wins(
    pending: Seq<u32>,
    applied: Seq<u32>,
    queue: Seq<BrightnessEvent>,
    target: usize,
    level: u32,
)
    requires
        pending.len() <= usize::MAX,
        (target as int) < pending.len(),
        last_consumed_change(queue, target) == Some(level),
    ensures
        ({
            let drained = drained_levels(pending, queue);
            &&& drained[target as int] == level
            &&& writes_for(write_plan_from(drained, applied, true, 0), target)
                == seq![(PlannedWrite { target, level })]
            &&& level != applied[target as int]
                ==> writes_for(write_plan_from(drained, applied, false, 0), target)
                    == seq![(PlannedWrite { target, level })]
            &&& level == applied[target as int]
                ==> writes_for(write_plan_from(drained, applied, false, 0), target)
                    == Seq::<PlannedWrite>::empty()
        }),
{
    lemma_drain_last_wins(pending, queue, target);
    lemma_drained_levels_len(pending, queue);
    let drained = drained_levels(pending, queue);
    lemma_plan_writes_for(drained, applied, true, 0, target);
    lemma_plan_writes_for(drained, applied, false, 0, target);
}

/// Per-target independence: in one drained burst, two different displays
/// each end at the level of their own last change, however the burst
/// interleaved them, and each is owed exactly one write of that level.
pub proof fn lemma_per_target_independence(
    pending: Seq<u32>,
    applied: Seq<u32>,
    queue: Seq<BrightnessEvent>,
    first: usize,
    second: usize,
    first_level: u32,
    second_level: u32,
)
    requires
        pending.len() <= usize::MAX,
        first != second,
        (first as int) < pending.len(),
        (second as int) < pending.len(),
        last_consumed_change(queue, first) == Some(first_level),
        last_consumed_change(queue, second) == Some(second_level),
    ensures
        ({
            let drained = drained_levels(pending, queue);
            &&& drained[first as int] == first_level
            &&& drained[second as int] == second_level
            &&& writes_for(write_plan_from(drained, applied, true, 0), first)
                == seq![(PlannedWrite { target: first, level: first_level })]
            &&& writes_for(write_plan_from(drained, applied, true, 0), second)
                == seq![(PlannedWrite { target: second, level: second_level })]
        }),
{
    lemma_coalescing_last_wins(pending, applied, queue, first, first_level);
    lemma_coalescing_last_wins(pending, applied, queue, second, second_level);
}

/// A reset re-applies unconditionally: a drain ended by a `Reset` decides to
/// apply all, and the all-targets plan owes every registered display exactly
/// one write of its current intended level — even a display whose intended
/// level equals the last confirmed one.
pub proof fn lemma_reset_applies_all(
    pending: Seq<u32>,
    applied: Seq<u32>,
    queue: Seq<BrightnessEvent>,
    reset_at: int,
)
    requires
        pending.len() <= usize::MAX,
        0 <= reset_at < queue.len(),
        queue[reset_at] is Reset,
        forall|j: int| 0 <= j < reset_at ==> #[trigger] queue[j] is Change,
    ensures
        drain_outcome(queue) == DrainStep::ApplyAll,
        ({
            let drained = drained_levels(pending, queue);
            forall|target: usize| (target as int) < pending.len()
                ==> #[trigger] writes_for(write_plan_from(drained, applied, true, 0), target)
                    == seq![(PlannedWrite { target, level: drained[target as int] })]
        }),
{
    lemma_drain_stops_at_terminator(pending, queue, reset_at);
    lemma_drained_levels_len(pending, queue);
    let drained = drained_levels(pending, queue);
    assert forall|target: usize| (target as int) < pending.len()
        implies #[trigger] writes_for(write_plan_from(drained, applied, true, 0), target)
            == seq![(PlannedWrite { target, level: drained[target as int] })] by {
        lemma_plan_writes_for(drained, applied, true, 0, target);
    }
}

/// Quit terminates immediately: a drain that reaches a `Quit` decides to
/// shut down — so the apply phase never runs and no further write is issued
/// — and the changes queued behind the `Quit` are neither consumed nor
/// absorbed into the intended levels.
pub proof fn lemma_quit_discards_rest(
    pending: Seq<u32>,
    queue: Seq<BrightnessEvent>,
    quit_at: int,
)
    requires
        0 <= quit_at < queue.len(),
        queue[quit_at] is Quit,
        forall|j: int| 0 <= j < quit_at ==> #[trigger] queue[j] is Change,
    ensures
        drain_outcome(queue) == DrainStep::Shutdown,
        drain_consumed(queue) == quit_at + 1,
        drained_levels(pending, queue) == drained_levels(pending, queue.take(quit_at)),
{
    lemma_drain_stops_at_terminator(pending, queue, quit_at);
}

/// State owned by the worker thread: per display, the range it supports, the
/// level the user currently intends, and the level last confirmed written.
pub struct Controller {
    bounds: Vec<TargetBounds>,
    pending: Vec<u32>,
    applied: Vec<u32>,
}

impl Controller {
    /// The ranges of the registered displays.
    pub closed spec fn bounds_seq(self) -> Seq<TargetBounds> {
        self.bounds@
    }

    /// The level each display is intended to have, per the latest drained
    /// intent.
    pub closed spec fn pending_levels(self) -> Seq<u32> {
        self.pending@
    }

    /// The level last confirmed written to each display.
    pub closed spec fn applied_levels(self) -> Seq<u32> {
        self.applied@
    }

    /// Number of registered displays.
    pub open spec fn target_count(self) -> nat {
        self.pending_levels().len()
    }

    /// The three per-target columns line up, and every range is usable.
    pub open spec fn well_formed(self) -> bool {
        &&& self.bounds_seq().len() == self.target_count()
        &&& self.applied_levels().len() == self.target_count()
        &&& forall|i: int| 0 <= i < self.target_count()
            ==> (#[trigger] self.bounds_seq()[i]).wf()
    }

    /// Register the enumerated displays with their ranges and their current
    /// levels; nothing is initially owed to hardware.
    pub fn new(bounds: Vec<TargetBounds>, initial_levels: Vec<u32>) -> (controller: Controller)
        requires
            bounds@.len() == initial_levels@.len(),
            forall|i: int| 0 <= i < bounds@.len() ==> (#[trigger] bounds@[i]).wf(),
        ensures
            controller.well_formed(),
            controller.bounds_seq() == bounds@,
            controller.pending_levels() == initial_levels@,
            controller.applied_levels() == initial_levels@,
    {
        let pending = initial_levels.clone();
        Controller { bounds, pending, applied: initial_levels }
    }

    /// How many displays are registered.
    pub fn num_targets(&self) -> (count: usize)
        ensures
            count == self.target_count(),
    {
        self.pending.len()
    }

    /// Feed one mailbox poll into the drain: a change for a known display
    /// overwrites its intended level; the returned step says whether to keep
    /// polling, apply, or shut down.
    pub fn drain_step(&mut self, poll: MailboxPoll) -> (step: DrainStep)
        requires
            old(self).well_formed(),
            poll matches MailboxPoll::Received(BrightnessEvent::Change(target, _))
                ==> (target as int) < old(self).target_count(),
        ensures
            final(self).well_formed(),
            final(self).bounds_seq() == old(self).bounds_seq(),
            final(self).applied_levels() == old(self).applied_levels(),
            final(self).pending_levels() == (match poll {
                MailboxPoll::Received(event) => absorb_event(old(self).pending_levels(), event),
                _ => old(self).pending_levels(),
            }),
            step == poll_step(poll),
    {
        match poll {
            MailboxPoll::Received(event) => match event {
                BrightnessEvent::Change(target, level) => {
                    self.pending.set(target, level);
                    DrainStep::KeepDraining
                },
                BrightnessEvent::Reset => DrainStep::ApplyAll,
                BrightnessEvent::Quit => DrainStep::Shutdown,
            },
            MailboxPoll::Empty => DrainStep::ApplyChanged,
            MailboxPoll::Closed => DrainStep::Shutdown,
        }
    }

    /// Compute the writes the apply phase owes, per the documented policy:
    /// after a `Reset` every display is written with its intended level;
    /// after an ordinary drain only displays whose intended level differs
    /// from the last confirmed one.
    pub fn plan_writes(&self, apply_all: bool) -> (plan: Vec<PlannedWrite>)
        requires
            self.well_formed(),
        ensures
            plan@ == write_plan_from(
                self.pending_levels(),
                self.applied_levels(),
                apply_all,
                0,
            ),
    {
        let ghost pend = self.pending_levels();
        let ghost appl = self.applied_levels();
        let mut plan: Vec<PlannedWrite> = Vec::new();
        let mut i: usize = 0;
        while i < self.pending.len()
            invariant
                self.well_formed(),
                pend == self.pending_levels(),
                appl == self.applied_levels(),
                i <= pend.len(),
                write_plan_from(pend, appl, apply_all, 0)
                    == plan@ + write_plan_from(pend, appl, apply_all, i as int),
            decreases pend.len() - i,
        {
            let intended = self.pending[i];
            let confirmed = self.applied[i];
            let ghost plan_before = plan@;
            if apply_all || intended != confirmed {
                plan.push(PlannedWrite { target: i, level: intended });
                proof {
                    let head = seq![(PlannedWrite { target: i, level: intended })];
                    let rest = write_plan_from(pend, appl, apply_all, i + 1);
                    assert((plan_before + head) + rest =~= plan_before + (head + rest));
                }
            }
            i = i + 1;
        }
        proof {
            assert(plan@ + write_plan_from(pend, appl, apply_all, pend.len() as int) =~= plan@);
        }
        plan
    }

    /// The value actually handed to hardware when writing `level` to
    /// `target`: the level clamped, exactly once, to the target's range.
    pub fn clamped_level_for(&self, target: usize, level: u32) -> (clamped: u32)
        requires
            self.well_formed(),
            (target as int) < self.target_count(),
        ensures
            clamped == clamp_spec(
                level,
                self.bounds_seq()[target as int].min_level,
                self.bounds_seq()[target as int].max_level,
            ),
            self.bounds_seq()[target as int].min_level <= clamped
                <= self.bounds_seq()[target as int].max_level,
    {
        let bounds = self.bounds[target];
        crate::retry::clamp_level(level, bounds.min_level, bounds.max_level)
    }

    /// Record that a write of `level` to `target` was confirmed by hardware.
    /// Only confirmed writes move the shadow level, so a display whose write
    /// failed stays owed and is retried on the next apply pass.
    pub fn record_applied(&mut self, target: usize, level: u32)
        requires
            old(self).well_formed(),
            (target as int) < old(self).target_count(),
        ensures
            final(self).well_formed(),
            final(self).bounds_seq() == old(self).bounds_seq(),
            final(self).pending_levels() == old(self).pending_levels(),
            final(self).applied_levels()
                == old(self).applied_levels().update(target as int, level),
    {
        self.applied.set(target, level);
    }

    /// The level currently intended for one display.
    pub fn pending_level(&self, target: usize) -> (level: u32)
        requires
            (target as int) < self.target_count(),
        ensures
            level == self.pending_levels()[target as int],
    {
        self.pending[target]
    }
}

} // verus!
