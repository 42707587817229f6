//! Dispatch of the built-in commands `pwd`, `cd`, `history` and `exit`.
//!
//! The dispatcher only decides; the caller performs whatever the decided
//! action asks of the operating system.

use vstd::prelude::*;
use crate::strutil::str_eq;

verus! {

/// The action a builtin invocation asks for. Only `QueryCwd`, `ChdirHome`
/// and `ChdirArg` touch the operating system; every `Usage*` action is a
/// message and nothing else.
#[derive(PartialEq, Eq, Structural, Clone, Copy, Debug)]
pub enum BuiltinAction {
    /// `pwd`: print the current working directory.
    QueryCwd,
    /// `pwd` with arguments: print the usage message only.
    UsagePwd,
    /// `cd` with no argument or with the literal `~`: change to the home
    /// directory.
    ChdirHome,
    /// `cd` with one argument other than `~`: change to that path verbatim.
    ChdirArg,
    /// `cd` with two or more arguments: print the usage message only.
    UsageCd,
    /// `exit`: terminate with success status.
    ExitShell,
    /// `exit` with arguments: print the usage message only.
    UsageExit,
    /// `history` reaching the dispatcher at all: print the usage message.
    UsageHistory,
    /// The verb is no builtin.
    NotBuiltin,
}

/// Whether `cmd` is one of the recognized builtin verbs, by exact,
/// case-sensitive match.
pub open spec fn spec_is_builtin(cmd: Seq<char>) -> bool {
    cmd == "pwd"@ || cmd == "cd"@ || cmd == "history"@ || cmd == "exit"@
}

/// The dispatch decision for verb `cmd` with argument list `args`.
pub open spec fn spec_builtin_action(cmd: Seq<char>, args: Seq<Seq<char>>) -> BuiltinAction {
    if cmd == "pwd"@ {
        if args.len() == 0 {
            BuiltinAction::QueryCwd
        } else {
            BuiltinAction::UsagePwd
        }
    } else if cmd == "cd"@ {
        if args.len() >= 2 {
            BuiltinAction::UsageCd
        } else if args.len() == 1 && args[0] != "~"@ {
            BuiltinAction::ChdirArg
        } else {
            BuiltinAction::ChdirHome
        }
    } else if cmd == "exit"@ {
        if args.len() == 0 {
            BuiltinAction::ExitShell
        } else {
            BuiltinAction::UsageExit
        }
    } else if cmd == "history"@ {
        BuiltinAction::UsageHistory
    } else {
        BuiltinAction::NotBuiltin
    }
}

/// Decides whether `cmd` is a builtin verb.
pub fn is_builtin(cmd: &str) -> (b: bool)
    ensures
        b == spec_is_builtin(cmd@),
{
    str_eq(cmd, "pwd") || str_eq(cmd, "cd") || str_eq(cmd, "history") || str_eq(cmd, "exit")
}

/// Decides what a builtin invocation does, without performing it.
pub fn run_builtin(cmd: &str, args: &Vec<String>) -> (act: BuiltinAction)
    ensures
        act == spec_builtin_action(cmd@, args.deep_view()),
{
    if str_eq(cmd, "pwd") {
        if args.len() == 0 {
            BuiltinAction::QueryCwd
        } else {
            BuiltinAction::UsagePwd
        }
    } else if str_eq(cmd, "cd") {
        if args.len() >= 2 {
            BuiltinAction::UsageCd
        } else if args.len() == 1 {
            proof {
                assert(args.deep_view()[0] == args@[0]@);
            }
            if str_eq(args[0].as_str(), "~") {
                BuiltinAction::ChdirHome
            } else {
                BuiltinAction::ChdirArg
            }
        } else {
            BuiltinAction::ChdirHome
        }
    } else if str_eq(cmd, "exit") {
        if args.len() == 0 {
            BuiltinAction::ExitShell
        } else {
            BuiltinAction::UsageExit
        }
    } else if str_eq(cmd, "history") {
        BuiltinAction::UsageHistory
    } else {
        BuiltinAction::NotBuiltin
    }
}

/// `pwd` with any nonempty argument list yields the usage error alone: the
/// decided action is never the working-directory query.
pub proof fn lemma_pwd_args_usage(args: Seq<Seq<char>>)
    requires
        args.len() > 0,
    ensures
        spec_builtin_action("pwd"@, args) == BuiltinAction::UsagePwd,
{
}

/// `cd` with two or more arguments yields the usage error alone: the decided
/// action changes no directory.
pub proof fn lemma_cd_many_args_usage(args: Seq<Seq<char>>)
    requires
        args.len() >= 2,
    ensures
        spec_builtin_action("cd"@, args) == BuiltinAction::UsageCd,
{
    reveal_strlit("pwd");
    reveal_strlit("cd");
    assert("pwd"@.len() == 3);
    assert("cd"@.len() == 2);
}

/// `cd` with no arguments and `cd ~` decide the same action: a change to the
/// home directory.
pub proof fn lemma_cd_home_default()
    ensures
        spec_builtin_action("cd"@, Seq::empty()) == BuiltinAction::ChdirHome,
        spec_builtin_action("cd"@, seq!["~"@]) == BuiltinAction::ChdirHome,
{
    reveal_strlit("pwd");
    reveal_strlit("cd");
    assert("pwd"@.len() == 3);
    assert("cd"@.len() == 2);
}

} // verus!

