//! Interpretation of the shell's own command-line arguments.

use vstd::prelude::*;
use crate::strutil::str_eq;

verus! {

pub const VERSION_MAJOR: u32 = 1;

pub const VERSION_MINOR: u32 = 0;

/// What the shell does at startup, decided from its argument list.
#[derive(PartialEq, Eq, Structural, Clone, Copy, Debug)]
pub enum StartupAction {
    /// No arguments: enter the interactive loop.
    RunShell,
    /// A single `-v`: print the version and exit with status 0.
    ShowVersion,
    /// Anything else: print the usage message and exit with status 1.
    RejectArgs,
}

/// The startup decision over the first two arguments after the program name.
pub open spec fn spec_startup_action(a1: Option<Seq<char>>, a2: Option<Seq<char>>) -> StartupAction {
    match a1 {
        Option::None => StartupAction::RunShell,
        Option::Some(s) => if a2 is None && s == "-v"@ {
            StartupAction::ShowVersion
        } else {
            StartupAction::RejectArgs
        },
    }
}

/// Decides the startup action from the first two arguments after the program
/// name.
pub fn handle_args(a1: Option<String>, a2: Option<String>) -> (r: StartupAction)
    ensures
        r == spec_startup_action(a1.deep_view(), a2.deep_view()),
{
    match a1 {
        Option::None => StartupAction::RunShell,
        Option::Some(s) => {
            if a2.is_none() && str_eq(s.as_str(), "-v") {
                StartupAction::ShowVersion
            } else {
                StartupAction::RejectArgs
            }
        },
    }
}

} // verus!
