//! The course of one block application: admission, validation, the handoff
//! between the durable store and the state in memory, and the end.
//!
//! The state in memory is swapped only after the durable store has staged
//! its writes, and the store commits only after the swap. Whoever runs the
//! application reports what happened as an [`Event`] and carries out the
//! [`Action`] it is given.
use vstd::prelude::*;

use crate::errors::ApplyBlockError;

verus! {

/// Where a block application stands.
#[derive(Clone, Copy, Debug, PartialEq, Eq, Structural)]
pub enum Stage {
    /// No application is under way.
    Idle,
    /// An application was admitted and its block is being checked.
    Validating,
    /// The block was accepted; the durable store is staging its writes.
    Staging,
    /// The state in memory is swapped; the durable store is committing.
    Committing,
}

/// How the durable store ended its part.
#[derive(Clone, Copy, Debug, PartialEq, Eq, Structural)]
pub enum DurableOutcome {
    /// The block is committed.
    Committed,
    /// The commit failed.
    Failed,
    /// The work of the store was interrupted and never reported back.
    Lost,
}

/// What happened.
#[derive(Clone, Copy, Debug, PartialEq, Eq, Structural)]
pub enum Event {
    /// A block is handed in.
    Begin,
    /// The block was checked.
    Validated { accepted: bool },
    /// The durable store has staged every write and is ready to commit.
    StageReady,
    /// The durable store went away before it was ready.
    StageLost,
    /// The durable store has ended its part.
    Finished { outcome: DurableOutcome },
}

/// What is to be done.
#[derive(Clone, Copy, Debug, PartialEq, Eq, Structural)]
pub enum Action {
    /// Check the block against the state.
    Validate,
    /// Turn the block away: another application is under way.
    Reject,
    /// Give the block up: it was not accepted. Nothing was changed.
    Dismiss,
    /// Let the durable store stage the writes of the block.
    StartDurableWrite,
    /// Swap the accumulators in memory, then tell the durable store to commit.
    SwapAndProceed,
    /// Give the block up: the durable store is gone. Nothing was changed.
    Abort,
    /// Report the block as applied.
    ReportSuccess,
    /// Report that memory and durable store may disagree: the node has to be restarted.
    ReportFatal,
    /// The event does not belong here: do nothing.
    Ignore,
}

/// The stage after an event, and what is to be done on it.
pub open spec fn step(stage: Stage, event: Event) -> (Stage, Action) {
    match (stage, event) {
        (Stage::Idle, Event::Begin) => (Stage::Validating, Action::Validate),
        (_, Event::Begin) => (stage, Action::Reject),
        (Stage::Validating, Event::Validated { accepted: true }) => (
            Stage::Staging,
            Action::StartDurableWrite,
        ),
        (Stage::Validating, Event::Validated { accepted: false }) => (Stage::Idle, Action::Dismiss),
        (Stage::Staging, Event::StageReady) => (Stage::Committing, Action::SwapAndProceed),
        (Stage::Staging, Event::StageLost) => (Stage::Idle, Action::Abort),
        (Stage::Committing, Event::Finished { outcome: DurableOutcome::Committed }) => (
            Stage::Idle,
            Action::ReportSuccess,
        ),
        (Stage::Committing, Event::Finished { outcome: _ }) => (Stage::Idle, Action::ReportFatal),
        _ => (stage, Action::Ignore),
    }
}

/// The error that an action ends the application with, if it does: the
/// block is turned away at admission, the durable store is gone before the
/// swap, or it failed after the swap.
pub open spec fn action_error(action: Action) -> Option<ApplyBlockError> {
    match action {
        Action::Reject => Some(ApplyBlockError::ConcurrentWrite),
        Action::Abort => Some(ApplyBlockError::BlockApplyingBrokenBecauseOfClosedChannel),
        Action::ReportFatal => Some(ApplyBlockError::DurableCommitFailed),
        _ => None,
    }
}

/// The result of the application as its last action gives it: the block is
/// applied exactly when the durable store has committed after the swap. A
/// failure after the swap is an error of its own, and so is every other end;
/// an action that ends nothing, or that gives a block up for the verdict on
/// it, leaves the block not applied.
pub open spec fn action_result(action: Action) -> Result<(), ApplyBlockError> {
    match action {
        Action::ReportSuccess => Ok(()),
        Action::Reject => Err(ApplyBlockError::ConcurrentWrite),
        Action::Abort => Err(ApplyBlockError::BlockApplyingBrokenBecauseOfClosedChannel),
        Action::ReportFatal => Err(ApplyBlockError::DurableCommitFailed),
        _ => Err(ApplyBlockError::BlockNotApplied),
    }
}

/// The stage after the events, one after the other.
pub open spec fn stage_after(start: Stage, events: Seq<Event>) -> Stage
    decreases events.len(),
{
    if events.len() == 0 {
        start
    } else {
        step(stage_after(start, events.drop_last()), events.last()).0
    }
}

/// The action on the last of the events.
pub open spec fn last_action(start: Stage, events: Seq<Event>) -> Action
    recommends
        events.len() > 0,
{
    step(stage_after(start, events.drop_last()), events.last()).1
}

/// The one application of blocks that a node runs at a time.
pub struct BlockApplication {
    stage: Stage,
}

impl BlockApplication {
    /// Where the application stands.
    pub closed spec fn stage(&self) -> Stage {
        self.stage
    }

    /// No application under way.
    pub fn new() -> (application: BlockApplication)
        ensures
            application.stage() == Stage::Idle,
    {
        BlockApplication { stage: Stage::Idle }
    }

    /// Where the application stands.
    pub fn current_stage(&self) -> (stage: Stage)
        ensures
            stage == self.stage(),
    {
        self.stage
    }

    /// Takes note of an event and says what is to be done.
    pub fn on_event(&mut self, event: Event) -> (action: Action)
        ensures
            (final(self).stage(), action) == step(old(self).stage(), event),
    {
        let (next, action) = match (self.stage, event) {
            (Stage::Idle, Event::Begin) => (Stage::Validating, Action::Validate),
            (_, Event::Begin) => (self.stage, Action::Reject),
            (Stage::Validating, Event::Validated { accepted }) => {
                if accepted {
                    (Stage::Staging, Action::StartDurableWrite)
                } else {
                    (Stage::Idle, Action::Dismiss)
                }
            },
            (Stage::Staging, Event::StageReady) => (Stage::Committing, Action::SwapAndProceed),
            (Stage::Staging, Event::StageLost) => (Stage::Idle, Action::Abort),
            (Stage::Committing, Event::Finished { outcome }) => {
                match outcome {
                    DurableOutcome::Committed => (Stage::Idle, Action::ReportSuccess),
                    _ => (Stage::Idle, Action::ReportFatal),
                }
            },
            _ => (self.stage, Action::Ignore),
        };
        self.stage = next;
        action
    }
}

/// The error that an action ends the application with, if it does.
pub fn error_of(action: Action) -> (error: Option<ApplyBlockError>)
    ensures
        error == action_error(action),
{
    match action {
        Action::Reject => Some(ApplyBlockError::ConcurrentWrite),
        Action::Abort => Some(ApplyBlockError::BlockApplyingBrokenBecauseOfClosedChannel),
        Action::ReportFatal => Some(ApplyBlockError::DurableCommitFailed),
        _ => None,
    }
}

/// The result of the application, from its last action: `Ok` exactly when
/// the block is reported as applied.
pub fn result_of(action: Action) -> (r: Result<(), ApplyBlockError>)
    ensures
        r == action_result(action),
        r is Ok <==> action == Action::ReportSuccess,
{
    match action {
        Action::ReportSuccess => Ok(()),
        Action::Reject => Err(ApplyBlockError::ConcurrentWrite),
        Action::Abort => Err(ApplyBlockError::BlockApplyingBrokenBecauseOfClosedChannel),
        Action::ReportFatal => Err(ApplyBlockError::DurableCommitFailed),
        _ => Err(ApplyBlockError::BlockNotApplied),
    }
}

// ---------------------------------------------------------------------------
// What holds of every course
// ---------------------------------------------------------------------------

/// A block is admitted only when no application is under way; otherwise it is
/// turned away and the application under way goes on as it was.
pub proof fn lemma_one_writer(stage: Stage)
    ensures
        stage == Stage::Idle ==> step(stage, Event::Begin) == (Stage::Validating, Action::Validate),
        stage != Stage::Idle ==> step(stage, Event::Begin) == (stage, Action::Reject),
{
}

/// The state in memory is swapped only on the word of the durable store that
/// its writes are staged, and the durable store is told to stage only a block
/// that was accepted.
pub proof fn lemma_swap_follows_staging(stage: Stage, event: Event)
    ensures
        step(stage, event).1 == Action::SwapAndProceed ==> stage == Stage::Staging && event
            == Event::StageReady,
        step(stage, event).1 == Action::StartDurableWrite ==> stage == Stage::Validating && event
            == (Event::Validated { accepted: true }),
{
}

/// Once the state in memory is swapped, the application is not given up and
/// nothing is swapped again: it ends with success or with the fatal report.
pub proof fn lemma_no_way_back(event: Event)
    ensures
        step(Stage::Committing, event).1 != Action::Abort,
        step(Stage::Committing, event).1 != Action::Dismiss,
        step(Stage::Committing, event).1 != Action::SwapAndProceed,
        step(Stage::Committing, event).0 == Stage::Idle ==> step(Stage::Committing, event).1
            == Action::ReportSuccess || step(Stage::Committing, event).1 == Action::ReportFatal,
{
}

/// After the swap the application ends with the block applied exactly when
/// the durable store has committed. When it failed or never reported back the
/// result is the error of its own, the stage is idle again, and nothing is
/// swapped back or tried again: the action is the fatal report, no other.
pub proof fn lemma_failed_commit_is_an_error(outcome: DurableOutcome)
    ensures
        action_result(step(Stage::Committing, Event::Finished { outcome }).1) is Ok <==> outcome
            == DurableOutcome::Committed,
        outcome != DurableOutcome::Committed ==> step(
            Stage::Committing,
            Event::Finished { outcome },
        ) == (Stage::Idle, Action::ReportFatal) && action_result(Action::ReportFatal) == Err::<
            (),
            ApplyBlockError,
        >(ApplyBlockError::DurableCommitFailed),
{
}

/// The fatal report is given only after the swap, on the word that the
/// durable store did not commit.
pub proof fn lemma_fatal_follows_swap(stage: Stage, event: Event)
    requires
        step(stage, event).1 == Action::ReportFatal,
    ensures
        stage == Stage::Committing,
        event matches Event::Finished { outcome } && outcome != DurableOutcome::Committed,
{
}

/// In every course from idle, a swap is the end of a stretch that began with
/// the acceptance of a block: before it the durable store was told to stage,
/// and between the two no other block was admitted and nothing was swapped.
pub proof fn lemma_every_swap_was_staged(events: Seq<Event>) -> (begun: int)
    requires
        events.len() > 0,
        last_action(Stage::Idle, events) == Action::SwapAndProceed,
    ensures
        0 < begun < events.len(),
        last_action(Stage::Idle, events.take(begun)) == Action::StartDurableWrite,
        forall|k: int|
            begun < k < events.len() ==> #[trigger] last_action(Stage::Idle, events.take(k))
                != Action::Validate && last_action(Stage::Idle, events.take(k))
                != Action::SwapAndProceed,
{
    let front = events.drop_last();
    let begun = lemma_staging_began(front);
    assert(front.take(begun) =~= events.take(begun));
    assert forall|k: int| begun < k < events.len() implies #[trigger] last_action(
        Stage::Idle,
        events.take(k),
    ) != Action::Validate && last_action(Stage::Idle, events.take(k))
        != Action::SwapAndProceed by {
        assert(front.take(k) =~= events.take(k));
    }
    begun
}

/// A course from idle that stands at staging reached it by the acceptance of
/// a block and has stayed there since.
proof fn lemma_staging_began(events: Seq<Event>) -> (begun: int)
    requires
        stage_after(Stage::Idle, events) == Stage::Staging,
    ensures
        0 < begun <= events.len(),
        last_action(Stage::Idle, events.take(begun)) == Action::StartDurableWrite,
        forall|k: int|
            begun < k <= events.len() ==> #[trigger] last_action(Stage::Idle, events.take(k))
                != Action::Validate && last_action(Stage::Idle, events.take(k))
                != Action::SwapAndProceed,
    decreases events.len(),
{
    let n = events.len() as int;
    let front = events.drop_last();
    assert(events.take(n) =~= events);
    if stage_after(Stage::Idle, front) == Stage::Staging {
        let begun = lemma_staging_began(front);
        assert(front.take(begun) =~= events.take(begun));
        assert forall|k: int| begun < k <= events.len() implies #[trigger] last_action(
            Stage::Idle,
            events.take(k),
        ) != Action::Validate && last_action(Stage::Idle, events.take(k))
            != Action::SwapAndProceed by {
            if k < n {
                assert(front.take(k) =~= events.take(k));
            }
        }
        begun
    } else {
        n
    }
}

} // verus!
