//! Classification of one input line for the command loop.

use vstd::prelude::*;
use crate::strutil::str_eq;
use crate::tokenize::{parse_cmd, tokens, lemma_tokens_wf, wf_tokens};
use crate::builtins::{is_builtin, spec_is_builtin};

verus! {

/// What the command loop does with one line of input.
#[derive(PartialEq, Eq, Structural, Clone, Copy, Debug)]
pub enum LineKind {
    /// The line, verbatim, is the history-listing keyword: print every
    /// recorded entry with its index and dispatch nothing.
    HistoryRequest,
    /// The line holds no token: do nothing.
    Empty,
    /// The first token is a builtin verb: dispatch to the builtin decision.
    BuiltinCmd,
    /// Anything else: spawn the verb as an external program.
    External,
}

/// The classification of the line `s`.
pub open spec fn spec_line_kind(s: Seq<char>) -> LineKind {
    if s == "history"@ {
        LineKind::HistoryRequest
    } else if tokens(s).len() == 0 {
        LineKind::Empty
    } else if spec_is_builtin(tokens(s)[0]) {
        LineKind::BuiltinCmd
    } else {
        LineKind::External
    }
}

/// Classifies one line of input.
pub fn classify_line(line: &str) -> (k: LineKind)
    ensures
        k == spec_line_kind(line@),
{
    if str_eq(line, "history") {
        return LineKind::HistoryRequest;
    }
    let r = parse_cmd(line);
    proof {
        lemma_tokens_wf(line@);
    }
    if r.0.as_str().unicode_len() == 0 {
        LineKind::Empty
    } else if is_builtin(r.0.as_str()) {
        LineKind::BuiltinCmd
    } else {
        LineKind::External
    }
}

} // verus!
