use cargo_watch::config::Config;
use cargo_watch::debounce::DebounceState;
use cargo_watch::dispatch::ActionOutcome;
use cargo_watch::filter::PathFilter;
use cargo_watch::plan::ActionKind;
use cargo_watch::watch::{
    watched_dirs, ChangeEvent, Command, Event, LoopState, WatchLoop, EXIT_NOT_A_PROJECT,
    EXIT_WATCHER_FAILED,
};

fn change(path: &[u8], observed_at: u64) -> Event {
    Event::Change(ChangeEvent { path: path.to_vec(), observed_at })
}

fn idle_loop(config: Config, interval: u64) -> WatchLoop {
    let (watch_loop, command) = WatchLoop::start(&config, PathFilter::new(), interval, true, true);
    assert_eq!(command, Command::Watch);
    assert_eq!(watch_loop.state(), LoopState::Idle);
    watch_loop
}

#[test]
fn two_close_changes_run_the_plan_once_and_a_later_one_again() {
    let mut watch_loop = idle_loop(Config::new(true, false, true, false), 100);

    assert_eq!(watch_loop.step(change(b"src/lib.rs", 0)), Command::Run(ActionKind::Build));
    assert_eq!(watch_loop.state(), LoopState::Dispatching);
    assert_eq!(
        watch_loop.step(Event::ActionFinished { succeeded: true }),
        Command::Run(ActionKind::Test)
    );
    assert_eq!(watch_loop.state(), LoopState::Dispatching);
    assert_eq!(watch_loop.step(Event::ActionFinished { succeeded: true }), Command::Report);
    assert_eq!(watch_loop.state(), LoopState::Idle);
    assert_eq!(
        watch_loop.outcomes(),
        &vec![
            ActionOutcome { kind: ActionKind::Build, succeeded: true },
            ActionOutcome { kind: ActionKind::Test, succeeded: true },
        ]
    );

    assert_eq!(watch_loop.step(change(b"src/lib.rs", 10)), Command::Wait);
    assert_eq!(watch_loop.state(), LoopState::Idle);
    assert_eq!(watch_loop.debounce_state().last_fired_at, Some(0));

    assert_eq!(watch_loop.step(change(b"src/main.rs", 150)), Command::Run(ActionKind::Build));
    assert_eq!(watch_loop.state(), LoopState::Dispatching);
    assert_eq!(watch_loop.debounce_state().last_fired_at, Some(150));
    assert!(watch_loop.outcomes().is_empty());
}

#[test]
fn no_project_stops_the_loop_with_status_64() {
    let config = Config::new(false, false, false, false);
    let (mut watch_loop, command) =
        WatchLoop::start(&config, PathFilter::new(), 100, true, false);
    assert_eq!(EXIT_NOT_A_PROJECT, 64);
    assert_eq!(command, Command::Exit(64));
    assert_eq!(watch_loop.state(), LoopState::Stopped);
    assert_eq!(watch_loop.step(change(b"src/lib.rs", 0)), Command::Nothing);
    assert_eq!(watch_loop.state(), LoopState::Stopped);
}

#[test]
fn no_watcher_stops_the_loop_with_status_1() {
    let config = Config::new(false, false, false, false);
    let (watch_loop, command) = WatchLoop::start(&config, PathFilter::new(), 100, false, true);
    assert_eq!(EXIT_WATCHER_FAILED, 1);
    assert_eq!(command, Command::Exit(1));
    assert_eq!(watch_loop.state(), LoopState::Stopped);
}

#[test]
fn a_missing_watcher_is_found_before_a_missing_project() {
    let config = Config::new(true, false, false, false);
    let (watch_loop, command) = WatchLoop::start(&config, PathFilter::new(), 100, false, false);
    assert_eq!(command, Command::Exit(1));
    assert_eq!(watch_loop.state(), LoopState::Stopped);
}

#[test]
fn a_failed_build_is_followed_by_the_tests() {
    let mut watch_loop = idle_loop(Config::new(true, false, true, false), 100);
    assert_eq!(watch_loop.step(change(b"src/lib.rs", 7)), Command::Run(ActionKind::Build));
    assert_eq!(
        watch_loop.step(Event::ActionFinished { succeeded: false }),
        Command::Run(ActionKind::Test)
    );
    assert_eq!(watch_loop.step(Event::ActionFinished { succeeded: true }), Command::Report);
    assert_eq!(
        watch_loop.outcomes(),
        &vec![
            ActionOutcome { kind: ActionKind::Build, succeeded: false },
            ActionOutcome { kind: ActionKind::Test, succeeded: true },
        ]
    );
    assert_eq!(watch_loop.state(), LoopState::Idle);
}

#[test]
fn an_ignored_path_does_not_reach_the_debouncer() {
    let mut watch_loop = idle_loop(Config::new(true, false, false, false), 100);
    assert_eq!(watch_loop.step(change(b"target/debug/deps/x", 0)), Command::Wait);
    assert_eq!(watch_loop.step(change(b"src/.lib.rs.swp", 1)), Command::Wait);
    assert_eq!(
        watch_loop.debounce_state(),
        DebounceState { last_fired_at: None, pending_since: None }
    );
    assert_eq!(watch_loop.step(change(b"src/lib.rs", 2)), Command::Run(ActionKind::Build));
    assert_eq!(watch_loop.debounce_state().last_fired_at, Some(2));
}

#[test]
fn a_closed_source_stops_an_idle_loop() {
    let mut watch_loop = idle_loop(Config::new(true, false, false, false), 100);
    assert_eq!(watch_loop.step(Event::SourceClosed), Command::Exit(1));
    assert_eq!(watch_loop.state(), LoopState::Stopped);
    assert_eq!(watch_loop.step(Event::SourceClosed), Command::Nothing);
    assert_eq!(watch_loop.step(Event::ActionFinished { succeeded: true }), Command::Nothing);
    assert_eq!(watch_loop.state(), LoopState::Stopped);
}

#[test]
fn an_event_out_of_place_changes_nothing() {
    let mut watch_loop = idle_loop(Config::new(true, false, true, false), 100);
    assert_eq!(watch_loop.step(Event::ActionFinished { succeeded: true }), Command::Nothing);
    assert_eq!(watch_loop.state(), LoopState::Idle);
    assert!(watch_loop.outcomes().is_empty());

    assert_eq!(watch_loop.step(change(b"src/lib.rs", 0)), Command::Run(ActionKind::Build));
    assert_eq!(watch_loop.step(change(b"src/lib.rs", 500)), Command::Nothing);
    assert_eq!(watch_loop.step(Event::SourceClosed), Command::Nothing);
    assert_eq!(watch_loop.state(), LoopState::Dispatching);
    assert_eq!(watch_loop.debounce_state().last_fired_at, Some(0));
    assert_eq!(
        watch_loop.step(Event::ActionFinished { succeeded: true }),
        Command::Run(ActionKind::Test)
    );
}

#[test]
fn the_full_plan_runs_in_order() {
    let mut watch_loop = idle_loop(Config::new(true, true, true, true), 50);
    assert_eq!(watch_loop.step(change(b"tests/a.rs", 1)), Command::Run(ActionKind::Build));
    assert_eq!(
        watch_loop.step(Event::ActionFinished { succeeded: false }),
        Command::Run(ActionKind::Doc)
    );
    assert_eq!(
        watch_loop.step(Event::ActionFinished { succeeded: false }),
        Command::Run(ActionKind::Test)
    );
    assert_eq!(
        watch_loop.step(Event::ActionFinished { succeeded: false }),
        Command::Run(ActionKind::Bench)
    );
    assert_eq!(watch_loop.step(Event::ActionFinished { succeeded: false }), Command::Report);
    assert_eq!(watch_loop.outcomes().len(), 4);
    assert!(watch_loop.outcomes().iter().all(|outcome| !outcome.succeeded));
}

#[test]
fn a_change_after_a_long_run_fires_at_once() {
    let mut watch_loop = idle_loop(Config::new(true, false, false, false), 100);
    assert_eq!(watch_loop.step(change(b"src/a.rs", 1000)), Command::Run(ActionKind::Build));
    assert_eq!(watch_loop.step(Event::ActionFinished { succeeded: true }), Command::Report);
    assert_eq!(watch_loop.step(change(b"src/a.rs", 1099)), Command::Wait);
    assert_eq!(watch_loop.step(change(b"src/a.rs", 1100)), Command::Run(ActionKind::Build));
}

#[test]
fn the_watched_directories_are_src_tests_and_benches() {
    assert_eq!(watched_dirs(), ["src", "tests", "benches"]);
}
