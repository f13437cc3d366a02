//! The loop around the pipeline: from the state and what just happened to the
//! next state and what the caller is to do.

use vstd::prelude::*;
use crate::config::Config;
use crate::debounce::{advance, decide, fresh, DebounceState, Debouncer, Decision};
use crate::dispatch::{next_kind, recorded, ActionDispatcher, ActionOutcome};
use crate::filter::{excluded_path, PathFilter, RuleSpec};
use crate::plan::{build_plan, plan_of, ActionKind};

verus! {

/// The exit status where the file watcher cannot be had.
pub const EXIT_WATCHER_FAILED: i32 = 1;

/// The exit status where no project encloses the current directory.
pub const EXIT_NOT_A_PROJECT: i32 = 64;

/// A change that the file watcher saw.
#[derive(Debug)]
pub struct ChangeEvent {
    /// The changed path, as bytes.
    pub path: Vec<u8>,
    /// When the change was seen, in milliseconds on the caller's clock.
    pub observed_at: u64,
}

/// Where the loop stands.
#[derive(Clone, Copy, Debug, PartialEq, Eq, Structural)]
pub enum LoopState {
    /// Waiting for the next change.
    Idle,
    /// A run is under way.
    Dispatching,
    /// The loop has ended.
    Stopped,
}

/// What just happened.
#[derive(Debug)]
pub enum Event {
    /// The file watcher saw a change.
    Change(ChangeEvent),
    /// The action that the loop asked for has finished.
    ActionFinished { succeeded: bool },
    /// The file watcher will deliver nothing more.
    SourceClosed,
}

/// What the caller is to do next.
#[derive(Clone, Copy, Debug, PartialEq, Eq, Structural)]
pub enum Command {
    /// Watch the directories named by `watched_dirs` under the project root,
    /// then wait for a change.
    Watch,
    /// Wait for the next change.
    Wait,
    /// Perform the action to its end, then say how it went.
    Run(ActionKind),
    /// The run is through: report its outcomes, then wait for a change.
    Report,
    /// Leave the process with this status.
    Exit(i32),
    /// The event does not belong to this state: carry on as before.
    Nothing,
}

/// The loop as a mathematical value.
pub struct LoopView {
    pub state: LoopState,
    pub rules: Seq<RuleSpec>,
    pub interval: u64,
    pub debounce: DebounceState,
    pub plan: Seq<ActionKind>,
    pub outcomes: Seq<ActionOutcome>,
}

/// What the loop asks for first. A missing watcher is found before a
/// missing project.
pub open spec fn startup_command(watcher_ready: bool, root_found: bool) -> Command {
    if !watcher_ready {
        Command::Exit(EXIT_WATCHER_FAILED)
    } else if !root_found {
        Command::Exit(EXIT_NOT_A_PROJECT)
    } else {
        Command::Watch
    }
}

/// The loop after startup: idle where the watcher is ready and the project
/// was found, stopped otherwise.
pub open spec fn started(
    rules: Seq<RuleSpec>,
    interval: u64,
    plan: Seq<ActionKind>,
    watcher_ready: bool,
    root_found: bool,
) -> LoopView {
    LoopView {
        state: if watcher_ready && root_found {
            LoopState::Idle
        } else {
            LoopState::Stopped
        },
        rules,
        interval,
        debounce: fresh(),
        plan,
        outcomes: Seq::empty(),
    }
}

/// The loop and the command after a change, seen while idle. A path that the
/// filter drops reaches neither the debouncer nor the plan.
pub open spec fn after_change(v: LoopView, change: ChangeEvent) -> (LoopView, Command) {
    if excluded_path(v.rules, change.path@) {
        (v, Command::Wait)
    } else {
        let debounce = advance(v.debounce, v.interval, change.observed_at);
        match decide(v.debounce, v.interval, change.observed_at) {
            Decision::Suppress => (LoopView { debounce, ..v }, Command::Wait),
            Decision::Fire => match next_kind(v.plan, 0) {
                Some(first) => (
                    LoopView {
                        state: LoopState::Dispatching,
                        debounce,
                        outcomes: Seq::empty(),
                        ..v
                    },
                    Command::Run(first),
                ),
                None => (LoopView { debounce, outcomes: Seq::empty(), ..v }, Command::Report),
            },
        }
    }
}

/// The loop and the command after an action of the run has finished,
/// whether it succeeded or not.
pub open spec fn after_action(v: LoopView, succeeded: bool) -> (LoopView, Command) {
    let outcomes = recorded(v.plan, v.outcomes, succeeded);
    match next_kind(v.plan, outcomes.len()) {
        Some(kind) => (LoopView { outcomes, ..v }, Command::Run(kind)),
        None => (LoopView { state: LoopState::Idle, outcomes, ..v }, Command::Report),
    }
}

/// The loop and the command after an event. A source that closes while the
/// loop is idle ends the loop, with the status of a failed watcher.
pub open spec fn next(v: LoopView, event: Event) -> (LoopView, Command) {
    match (v.state, event) {
        (LoopState::Idle, Event::Change(change)) => after_change(v, change),
        (LoopState::Idle, Event::SourceClosed) => (
            LoopView { state: LoopState::Stopped, ..v },
            Command::Exit(EXIT_WATCHER_FAILED),
        ),
        (LoopState::Dispatching, Event::ActionFinished { succeeded }) => after_action(v, succeeded),
        _ => (v, Command::Nothing),
    }
}

/// What holds of a loop at every moment: its plan holds an action, the
/// outcomes are those of the plan's first actions, and while a run is under
/// way an action is still due.
pub open spec fn loop_wf(v: LoopView) -> bool {
    &&& v.plan.len() >= 1
    &&& v.outcomes.len() <= v.plan.len()
    &&& forall|i: int| 0 <= i < v.outcomes.len() ==> (#[trigger] v.outcomes[i]).kind == v.plan[i]
    &&& v.state == LoopState::Dispatching ==> v.outcomes.len() < v.plan.len()
}

/// The directories under the project root that are watched.
pub fn watched_dirs() -> (dirs: [&'static str; 3])
    ensures
        dirs[0]@ == "src"@,
        dirs[1]@ == "tests"@,
        dirs[2]@ == "benches"@,
{
    ["src", "tests", "benches"]
}

/// The orchestrator of the pipeline.
#[derive(Debug)]
pub struct WatchLoop {
    state: LoopState,
    filter: PathFilter,
    debouncer: Debouncer,
    dispatcher: ActionDispatcher,
}

impl View for WatchLoop {
    type V = LoopView;

    closed spec fn view(&self) -> LoopView {
        LoopView {
            state: self.state,
            rules: self.filter@,
            interval: self.debouncer.interval(),
            debounce: self.debouncer.state(),
            plan: self.dispatcher.plan(),
            outcomes: self.dispatcher.reported(),
        }
    }
}

impl WatchLoop {
    /// Starts the loop, given whether the file watcher could be had and
    /// whether a project encloses the current directory. The command is
    /// `Watch` where both hold; otherwise the loop is stopped and the command
    /// is the exit with the status of what is missing.
    pub fn start(
        config: &Config,
        filter: PathFilter,
        interval: u64,
        watcher_ready: bool,
        root_found: bool,
    ) -> (started: (WatchLoop, Command))
        ensures
            started.0@ == self::started(
                filter@,
                interval,
                plan_of(config@),
                watcher_ready,
                root_found,
            ),
            started.1 == startup_command(watcher_ready, root_found),
            loop_wf(started.0@),
    {
        let plan = build_plan(config);
        let state = if watcher_ready && root_found {
            LoopState::Idle
        } else {
            LoopState::Stopped
        };
        let command = if !watcher_ready {
            Command::Exit(EXIT_WATCHER_FAILED)
        } else if !root_found {
            Command::Exit(EXIT_NOT_A_PROJECT)
        } else {
            Command::Watch
        };
        let watch_loop = WatchLoop {
            state,
            filter,
            debouncer: Debouncer::new(interval),
            dispatcher: ActionDispatcher::new(plan),
        };
        (watch_loop, command)
    }

    /// Where the loop stands.
    pub fn state(&self) -> (state: LoopState)
        ensures
            state == self@.state,
    {
        self.state
    }

    /// The outcomes of the run under way, or of the last run once it is
    /// through.
    pub fn outcomes(&self) -> (outcomes: &Vec<ActionOutcome>)
        ensures
            outcomes@ == self@.outcomes,
    {
        self.dispatcher.outcomes()
    }

    /// What the debouncer remembers.
    pub fn debounce_state(&self) -> (state: DebounceState)
        ensures
            state == self@.debounce,
    {
        self.debouncer.current()
    }

    /// Takes an event and says what to do next.
    pub fn step(&mut self, event: Event) -> (command: Command)
        ensures
            (final(self)@, command) == next(old(self)@, event),
    {
        match self.state {
            LoopState::Idle => match event {
                Event::Change(change) => {
                    if !self.filter.is_relevant(change.path.as_slice()) {
                        return Command::Wait;
                    }
                    match self.debouncer.on_event(change.observed_at) {
                        Decision::Suppress => Command::Wait,
                        Decision::Fire => {
                            self.dispatcher.restart();
                            match self.dispatcher.next_action() {
                                Some(first) => {
                                    self.state = LoopState::Dispatching;
                                    Command::Run(first)
                                },
                                None => Command::Report,
                            }
                        },
                    }
                },
                Event::SourceClosed => {
                    self.state = LoopState::Stopped;
                    Command::Exit(EXIT_WATCHER_FAILED)
                },
                Event::ActionFinished { succeeded: _ } => Command::Nothing,
            },
            LoopState::Dispatching => match event {
                Event::ActionFinished { succeeded } => {
                    self.dispatcher.record(succeeded);
                    match self.dispatcher.next_action() {
                        Some(kind) => Command::Run(kind),
                        None => {
                            self.state = LoopState::Idle;
                            Command::Report
                        },
                    }
                },
                _ => Command::Nothing,
            },
            LoopState::Stopped => Command::Nothing,
        }
    }
}

/// Every step keeps what holds of a loop at every moment.
pub proof fn law_step_keeps_wf(v: LoopView, event: Event)
    requires
        loop_wf(v),
    ensures
        loop_wf(next(v, event).0),
        next(v, event).0.plan == v.plan,
        next(v, event).0.rules == v.rules,
        next(v, event).0.interval == v.interval,
{
}

/// A stopped loop stays stopped and asks for nothing.
pub proof fn law_stopped_is_final(v: LoopView, event: Event)
    requires
        v.state == LoopState::Stopped,
    ensures
        next(v, event) == (v, Command::Nothing),
{
}

/// The time of the latest firing never moves back.
pub proof fn law_firing_time_monotone(v: LoopView, event: Event)
    ensures
        match (v.debounce.last_fired_at, next(v, event).0.debounce.last_fired_at) {
            (Some(before), Some(after)) => before <= after,
            (Some(_), None) => false,
            (None, _) => true,
        },
{
}

/// A run starts only with a change whose path the filter keeps and whose
/// gap since the latest firing has reached the interval; it then starts with
/// the first action of the plan.
pub proof fn law_run_starts_when_due(v: LoopView, change: ChangeEvent)
    requires
        loop_wf(v),
        v.state == LoopState::Idle,
    ensures
        next(v, Event::Change(change)).1 == (if !excluded_path(v.rules, change.path@)
            && crate::debounce::due(v.debounce, v.interval, change.observed_at) {
            Command::Run(v.plan[0])
        } else {
            Command::Wait
        }),
{
}

/// A failed action stops nothing: the command after it is the command after
/// a success, and the two outcomes differ in that action's result alone.
pub proof fn law_failure_does_not_abort(v: LoopView)
    requires
        loop_wf(v),
        v.state == LoopState::Dispatching,
    ensures
        next(v, Event::ActionFinished { succeeded: false }).1 == next(
            v,
            Event::ActionFinished { succeeded: true },
        ).1,
        next(v, Event::ActionFinished { succeeded: false }).0.state == next(
            v,
            Event::ActionFinished { succeeded: true },
        ).0.state,
        next(v, Event::ActionFinished { succeeded: false }).0.outcomes == v.outcomes.push(
            ActionOutcome { kind: v.plan[v.outcomes.len() as int], succeeded: false },
        ),
        next(v, Event::ActionFinished { succeeded: true }).0.outcomes == v.outcomes.push(
            ActionOutcome { kind: v.plan[v.outcomes.len() as int], succeeded: true },
        ),
{
}

} // verus!
