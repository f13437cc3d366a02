use cargo_watch::dispatch::{ActionDispatcher, ActionOutcome};
use cargo_watch::plan::ActionKind;

#[test]
fn a_failed_build_does_not_stop_the_tests() {
    let mut dispatcher = ActionDispatcher::new(vec![ActionKind::Build, ActionKind::Test]);
    assert_eq!(dispatcher.next_action(), Some(ActionKind::Build));
    dispatcher.record(false);
    assert_eq!(dispatcher.next_action(), Some(ActionKind::Test));
    assert!(!dispatcher.is_finished());
    dispatcher.record(true);
    assert_eq!(dispatcher.next_action(), None);
    assert!(dispatcher.is_finished());
    assert_eq!(
        dispatcher.outcomes(),
        &vec![
            ActionOutcome { kind: ActionKind::Build, succeeded: false },
            ActionOutcome { kind: ActionKind::Test, succeeded: true },
        ]
    );
}

#[test]
fn every_action_runs_whatever_fails() {
    let plan = vec![ActionKind::Build, ActionKind::Doc, ActionKind::Test, ActionKind::Bench];
    for bits in 0u8..16 {
        let mut dispatcher = ActionDispatcher::new(plan.clone());
        let mut ran = Vec::new();
        let mut step = 0;
        while let Some(kind) = dispatcher.next_action() {
            ran.push(kind);
            dispatcher.record(bits & (1 << step) != 0);
            step += 1;
        }
        assert_eq!(ran, plan);
        let outcomes = dispatcher.outcomes();
        assert_eq!(outcomes.len(), 4);
        for (i, outcome) in outcomes.iter().enumerate() {
            assert_eq!(outcome.kind, plan[i]);
            assert_eq!(outcome.succeeded, bits & (1 << i) != 0);
        }
    }
}

#[test]
fn a_fresh_dispatcher_has_no_outcomes() {
    let dispatcher = ActionDispatcher::new(vec![ActionKind::Doc]);
    assert!(dispatcher.outcomes().is_empty());
    assert!(!dispatcher.is_finished());
    assert_eq!(dispatcher.next_action(), Some(ActionKind::Doc));
}

#[test]
fn nothing_is_recorded_once_the_plan_is_through() {
    let mut dispatcher = ActionDispatcher::new(vec![ActionKind::Test]);
    dispatcher.record(true);
    dispatcher.record(false);
    assert_eq!(
        dispatcher.outcomes(),
        &vec![ActionOutcome { kind: ActionKind::Test, succeeded: true }]
    );
}

#[test]
fn an_empty_plan_is_through_at_once() {
    let mut dispatcher = ActionDispatcher::new(Vec::new());
    assert!(dispatcher.is_finished());
    assert_eq!(dispatcher.next_action(), None);
    dispatcher.record(true);
    assert!(dispatcher.outcomes().is_empty());
}

#[test]
fn a_restart_begins_the_plan_again() {
    let mut dispatcher = ActionDispatcher::new(vec![ActionKind::Build, ActionKind::Bench]);
    dispatcher.record(true);
    dispatcher.record(false);
    dispatcher.restart();
    assert!(dispatcher.outcomes().is_empty());
    assert_eq!(dispatcher.next_action(), Some(ActionKind::Build));
    dispatcher.record(false);
    assert_eq!(
        dispatcher.outcomes(),
        &vec![ActionOutcome { kind: ActionKind::Build, succeeded: false }]
    );
    assert_eq!(dispatcher.next_action(), Some(ActionKind::Bench));
}
