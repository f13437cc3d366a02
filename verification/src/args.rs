//! From the command line to a configuration. The command line is matched
//! against the usage text by docopt; what follows the match is decided here.

use vstd::prelude::*;
use docopt::{ArgvMap, Docopt};
use crate::config::{effective_flags, Config, Flags};

verus! {

/// The usage text that the command line is matched against.
pub const USAGE: &'static str = "
Usage: cargo-watch [watch] [options]
       cargo watch [options]

Options:
  -h, --help      Display this message
  -b, --build     Run `cargo build` when a file is modified
  -d, --doc       Run `cargo doc` when a file is modified
  -t, --test      Run `cargo test` when a file is modified
  -n, --bench     Run `cargo bench` when a file is modified

Default options are `build` and `test`
";

/// docopt's map from the names of a usage text to the values that a command
/// line gave them. Verus sees nothing inside it.
#[verifier::external_type_specification]
#[verifier::external_body]
pub struct ExArgvMap(ArgvMap);

/// The names that the map holds with a value that counts as true: a switch
/// that was given.
pub uninterp spec fn switched_on(map: ArgvMap) -> Set<Seq<char>>;

/// What docopt makes of a command line under a usage text: the names that
/// are switched on where the command line matches, otherwise whether the
/// mismatch is an error (`true`) or a request for the help text (`false`).
/// `argv` is the whole command line, the program's name first.
pub uninterp spec fn usage_match(usage: Seq<char>, argv: Seq<Seq<char>>) -> Result<
    Set<Seq<char>>,
    bool,
>;

/// Why a command line gave no configuration.
#[derive(Debug)]
pub struct UsageError {
    /// Whether the command line was wrong. It is not where the user asked
    /// for the help text.
    pub fatal: bool,
    /// What to show the user.
    pub message: String,
}

impl UsageError {
    /// The exit status that goes with the error: 0 after the help text, 1
    /// after a wrong command line.
    pub fn exit_code(&self) -> (code: i32)
        ensures
            code == (if self.fatal {
                1i32
            } else {
                0i32
            }),
    {
        if self.fatal {
            1
        } else {
            0
        }
    }
}

/// Calls `Docopt::new` on the usage text, hands the command line to
/// `Docopt::argv` and matches it with `Docopt::parse`; an error is passed on
/// as what `Error::fatal` and its `Display` say of it. The contract claims
/// that the call returns for every command line and that the outcome depends
/// on the usage text and the command line alone; which outcome is left to
/// docopt. Nothing is claimed of the message.
#[verifier::external_body]
fn match_usage(usage: &str, argv: &Vec<String>) -> (matched: Result<ArgvMap, UsageError>)
    requires
        usage@ == USAGE@,
    ensures
        usage_match(usage@, argv.deep_view()) == (match matched {
            Ok(map) => Ok::<Set<Seq<char>>, bool>(switched_on(map)),
            Err(error) => Err::<Set<Seq<char>>, bool>(error.fatal),
        }),
{
    Docopt::new(usage)
        .and_then(|docopt| docopt.argv(argv.iter()).parse())
        .map_err(|error| UsageError { fatal: error.fatal(), message: error.to_string() })
}

/// Calls `ArgvMap::get_bool`: whether the map holds `key` with a value that
/// counts as true. A name that the map does not hold is not switched on.
#[verifier::external_body]
fn switch(map: &ArgvMap, key: &str) -> (on: bool)
    ensures
        on == switched_on(*map).contains(key@),
{
    map.get_bool(key)
}

/// The flags among the names that are switched on.
pub open spec fn flags_of(on: Set<Seq<char>>) -> Flags {
    Flags {
        build: on.contains("--build"@),
        doc: on.contains("--doc"@),
        test: on.contains("--test"@),
        bench: on.contains("--bench"@),
    }
}

impl Config {
    /// The configuration for a command line, the program's name first. Where
    /// the command line matches the usage text, the configuration is that of
    /// `Config::new` for the flags given; otherwise the error says whether
    /// the command line was wrong or asked for the help text.
    pub fn from_argv(argv: &Vec<String>) -> (parsed: Result<Config, UsageError>)
        ensures
            match usage_match(USAGE@, argv.deep_view()) {
                Ok(on) => parsed matches Ok(config) && config@ == effective_flags(flags_of(on)),
                Err(fatal) => parsed matches Err(error) && error.fatal == fatal,
            },
    {
        match match_usage(USAGE, argv) {
            Ok(map) => {
                let build = switch(&map, "--build");
                let doc = switch(&map, "--doc");
                let test = switch(&map, "--test");
                let bench = switch(&map, "--bench");
                Ok(Config::new(build, doc, test, bench))
            },
            Err(error) => Err(error),
        }
    }
}

} // verus!
