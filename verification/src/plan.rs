//! The ordered list of actions that one trigger runs.

use vstd::prelude::*;
use crate::config::{Config, Flags};

verus! {

/// One invocation of the build tool.
#[derive(Clone, Copy, Debug, PartialEq, Eq, Structural)]
pub enum ActionKind {
    Build,
    Doc,
    Test,
    Bench,
}

impl ActionKind {
    /// The place of the action in every plan: build, doc, test, bench.
    pub open spec fn rank(self) -> int {
        match self {
            ActionKind::Build => 0,
            ActionKind::Doc => 1,
            ActionKind::Test => 2,
            ActionKind::Bench => 3,
        }
    }

    /// Whether the flags enable the action.
    pub open spec fn enabled_by(self, flags: Flags) -> bool {
        match self {
            ActionKind::Build => flags.build,
            ActionKind::Doc => flags.doc,
            ActionKind::Test => flags.test,
            ActionKind::Bench => flags.bench,
        }
    }

    /// The subcommand of the build tool that performs the action.
    pub open spec fn subcommand_name(self) -> Seq<char> {
        match self {
            ActionKind::Build => "build"@,
            ActionKind::Doc => "doc"@,
            ActionKind::Test => "test"@,
            ActionKind::Bench => "bench"@,
        }
    }

    /// The subcommand of the build tool that performs the action.
    pub fn subcommand(&self) -> (name: &'static str)
        ensures
            name@ == self.subcommand_name(),
    {
        match self {
            ActionKind::Build => "build",
            ActionKind::Doc => "doc",
            ActionKind::Test => "test",
            ActionKind::Bench => "bench",
        }
    }
}

/// The kind alone where it is enabled, nothing otherwise.
pub open spec fn only_if(enabled: bool, kind: ActionKind) -> Seq<ActionKind> {
    if enabled {
        seq![kind]
    } else {
        Seq::empty()
    }
}

/// The plan for the flags: the enabled kinds in the order build, doc, test,
/// bench.
pub open spec fn plan_of(flags: Flags) -> Seq<ActionKind> {
    only_if(flags.build, ActionKind::Build) + only_if(flags.doc, ActionKind::Doc) + only_if(
        flags.test,
        ActionKind::Test,
    ) + only_if(flags.bench, ActionKind::Bench)
}

/// The plan of a configuration.
pub fn build_plan(config: &Config) -> (plan: Vec<ActionKind>)
    ensures
        plan@ == plan_of(config@),
        plan@.len() >= 1,
{
    let mut plan: Vec<ActionKind> = Vec::new();
    if config.build() {
        plan.push(ActionKind::Build);
    }
    if config.doc() {
        plan.push(ActionKind::Doc);
    }
    if config.test() {
        plan.push(ActionKind::Test);
    }
    if config.bench() {
        plan.push(ActionKind::Bench);
    }
    proof {
        use_type_invariant(config);
        assert(plan@ =~= plan_of(config@));
    }
    plan
}

/// A plan is not empty where a flag is set, so the plan of every
/// configuration holds an action.
pub proof fn law_plan_nonempty(flags: Flags)
    ensures
        (flags.build || flags.doc || flags.test || flags.bench) ==> plan_of(flags).len() >= 1,
        plan_of(crate::config::effective_flags(flags)).len() >= 1,
{
}

/// A plan holds exactly the enabled kinds, each once, in the order build,
/// doc, test, bench.
pub proof fn law_plan_ordered(flags: Flags)
    ensures
        forall|kind: ActionKind| plan_of(flags).contains(kind) <==> kind.enabled_by(flags),
        forall|i: int, j: int|
            0 <= i < j < plan_of(flags).len() ==> plan_of(flags)[i].rank() < plan_of(
                flags,
            )[j].rank(),
{
    let plan = plan_of(flags);
    let b = only_if(flags.build, ActionKind::Build);
    let d = only_if(flags.doc, ActionKind::Doc);
    let t = only_if(flags.test, ActionKind::Test);
    let n = only_if(flags.bench, ActionKind::Bench);
    assert forall|kind: ActionKind| kind.enabled_by(flags) implies plan.contains(kind) by {
        match kind {
            ActionKind::Build => {
                assert(plan[0] == kind);
            },
            ActionKind::Doc => {
                assert(plan[b.len() as int] == kind);
            },
            ActionKind::Test => {
                assert(plan[(b.len() + d.len()) as int] == kind);
            },
            ActionKind::Bench => {
                assert(plan[(b.len() + d.len() + t.len()) as int] == kind);
            },
        }
    }
    assert forall|kind: ActionKind| plan.contains(kind) implies kind.enabled_by(flags) by {
        let i = choose|i: int| 0 <= i < plan.len() && plan[i] == kind;
        assert(plan[i] == kind);
    }
}

} // verus!
