//! The immutable set of enabled actions.

use vstd::prelude::*;

verus! {

/// Which actions a trigger runs. At least one of them is enabled.
#[derive(Clone, Copy, Debug)]
pub struct Config {
    build: bool,
    doc: bool,
    test: bool,
    bench: bool,
}

/// The four flags of a configuration, in the order build, doc, test, bench.
pub struct Flags {
    pub build: bool,
    pub doc: bool,
    pub test: bool,
    pub bench: bool,
}

/// The flags that a configuration holds for the flags that the user supplied:
/// the supplied ones if any is set, otherwise build and test.
pub open spec fn effective_flags(supplied: Flags) -> Flags {
    if !supplied.build && !supplied.doc && !supplied.test && !supplied.bench {
        Flags { build: true, doc: false, test: true, bench: false }
    } else {
        supplied
    }
}

impl View for Config {
    type V = Flags;

    closed spec fn view(&self) -> Flags {
        Flags { build: self.build, doc: self.doc, test: self.test, bench: self.bench }
    }
}

impl Config {
    /// A configuration enables at least one action.
    #[verifier::type_invariant]
    pub open spec fn wf(&self) -> bool {
        self@.build || self@.doc || self@.test || self@.bench
    }

    /// Builds the configuration for the flags that the user supplied. With no
    /// flag supplied, build and test are enabled.
    pub fn new(build: bool, doc: bool, test: bool, bench: bool) -> (config: Config)
        ensures
            config@ == effective_flags((Flags { build, doc, test, bench })),
            config.wf(),
    {
        if !build && !doc && !test && !bench {
            Config { build: true, doc: false, test: true, bench: false }
        } else {
            Config { build, doc, test, bench }
        }
    }

    /// Whether a trigger builds the project.
    pub fn build(&self) -> (enabled: bool)
        ensures
            enabled == self@.build,
    {
        self.build
    }

    /// Whether a trigger documents the project.
    pub fn doc(&self) -> (enabled: bool)
        ensures
            enabled == self@.doc,
    {
        self.doc
    }

    /// Whether a trigger runs the tests.
    pub fn test(&self) -> (enabled: bool)
        ensures
            enabled == self@.test,
    {
        self.test
    }

    /// Whether a trigger runs the benchmarks.
    pub fn bench(&self) -> (enabled: bool)
        ensures
            enabled == self@.bench,
    {
        self.bench
    }
}

} // verus!
