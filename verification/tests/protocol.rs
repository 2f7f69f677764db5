use miden_node::errors::ApplyBlockError;
use miden_node::protocol::{
    error_of, result_of, Action, BlockApplication, DurableOutcome, Event, Stage,
};

fn run(application: &mut BlockApplication, events: &[Event]) -> Vec<Action> {
    events.iter().map(|event| application.on_event(*event)).collect()
}

#[test]
fn a_block_goes_through_every_stage() {
    let mut application = BlockApplication::new();
    assert_eq!(application.current_stage(), Stage::Idle);
    assert_eq!(application.on_event(Event::Begin), Action::Validate);
    assert_eq!(application.current_stage(), Stage::Validating);
    assert_eq!(
        application.on_event(Event::Validated { accepted: true }),
        Action::StartDurableWrite
    );
    assert_eq!(application.current_stage(), Stage::Staging);
    assert_eq!(application.on_event(Event::StageReady), Action::SwapAndProceed);
    assert_eq!(application.current_stage(), Stage::Committing);
    assert_eq!(
        application.on_event(Event::Finished { outcome: DurableOutcome::Committed }),
        Action::ReportSuccess
    );
    assert_eq!(application.current_stage(), Stage::Idle);
    // and the next block is admitted
    assert_eq!(application.on_event(Event::Begin), Action::Validate);
}

#[test]
fn a_second_block_is_turned_away_at_every_stage() {
    let mut application = BlockApplication::new();
    let actions = run(
        &mut application,
        &[
            Event::Begin,
            Event::Begin,
            Event::Validated { accepted: true },
            Event::Begin,
            Event::StageReady,
            Event::Begin,
        ],
    );
    assert_eq!(
        actions,
        vec![
            Action::Validate,
            Action::Reject,
            Action::StartDurableWrite,
            Action::Reject,
            Action::SwapAndProceed,
            Action::Reject,
        ]
    );
    assert_eq!(application.current_stage(), Stage::Committing);
    assert!(matches!(error_of(Action::Reject), Some(ApplyBlockError::ConcurrentWrite)));
}

#[test]
fn a_refused_block_leaves_no_trace() {
    let mut application = BlockApplication::new();
    let actions = run(&mut application, &[Event::Begin, Event::Validated { accepted: false }]);
    assert_eq!(actions, vec![Action::Validate, Action::Dismiss]);
    assert_eq!(application.current_stage(), Stage::Idle);
    assert!(error_of(Action::Dismiss).is_none());
}

#[test]
fn a_lost_store_gives_the_block_up_before_the_swap() {
    let mut application = BlockApplication::new();
    let actions = run(
        &mut application,
        &[Event::Begin, Event::Validated { accepted: true }, Event::StageLost],
    );
    assert_eq!(actions[2], Action::Abort);
    assert_eq!(application.current_stage(), Stage::Idle);
    assert!(matches!(
        error_of(Action::Abort),
        Some(ApplyBlockError::BlockApplyingBrokenBecauseOfClosedChannel)
    ));
}

#[test]
fn a_failure_after_the_swap_is_fatal() {
    for outcome in [DurableOutcome::Failed, DurableOutcome::Lost] {
        let mut application = BlockApplication::new();
        let actions = run(
            &mut application,
            &[
                Event::Begin,
                Event::Validated { accepted: true },
                Event::StageReady,
                Event::StageLost,
                Event::Finished { outcome },
            ],
        );
        assert_eq!(actions[3], Action::Ignore);
        assert_eq!(actions[4], Action::ReportFatal);
        assert_eq!(application.current_stage(), Stage::Idle);
    }
    assert!(matches!(error_of(Action::ReportFatal), Some(ApplyBlockError::DurableCommitFailed)));
    assert!(matches!(result_of(Action::ReportFatal), Err(ApplyBlockError::DurableCommitFailed)));
}

#[test]
fn only_a_committed_block_is_a_success() {
    assert!(result_of(Action::ReportSuccess).is_ok());
    assert!(error_of(Action::ReportSuccess).is_none());
    assert!(matches!(result_of(Action::Reject), Err(ApplyBlockError::ConcurrentWrite)));
    assert!(matches!(
        result_of(Action::Abort),
        Err(ApplyBlockError::BlockApplyingBrokenBecauseOfClosedChannel)
    ));
    for action in [
        Action::Validate,
        Action::Dismiss,
        Action::StartDurableWrite,
        Action::SwapAndProceed,
        Action::Ignore,
    ] {
        assert!(matches!(result_of(action), Err(ApplyBlockError::BlockNotApplied)));
        assert!(error_of(action).is_none());
    }
    // the whole course: a commit that fails after the swap ends in the error
    let mut application = BlockApplication::new();
    let mut last = Action::Ignore;
    for event in [
        Event::Begin,
        Event::Validated { accepted: true },
        Event::StageReady,
        Event::Finished { outcome: DurableOutcome::Failed },
    ] {
        last = application.on_event(event);
    }
    assert!(matches!(result_of(last), Err(ApplyBlockError::DurableCommitFailed)));
    assert_eq!(application.current_stage(), Stage::Idle);
}

#[test]
fn events_out_of_place_are_ignored() {
    let mut application = BlockApplication::new();
    let actions = run(
        &mut application,
        &[
            Event::StageReady,
            Event::Validated { accepted: true },
            Event::Finished { outcome: DurableOutcome::Committed },
            Event::StageLost,
        ],
    );
    assert_eq!(actions, vec![Action::Ignore; 4]);
    assert_eq!(application.current_stage(), Stage::Idle);
    let mut application = BlockApplication::new();
    application.on_event(Event::Begin);
    assert_eq!(application.on_event(Event::StageReady), Action::Ignore);
    assert_eq!(application.current_stage(), Stage::Validating);
}
