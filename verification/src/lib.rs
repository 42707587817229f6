//! A small interactive shell, split into verified decision logic and a thin
//! unverified front end.
//!
//! The logic here covers whitespace tokenization of an input line, prompt
//! computation, startup-argument handling, dispatch of the built-in commands
//! (`pwd`, `cd`, `history`, `exit`), classification of each input line, and
//! the state machine of the signal relay that decides whether a terminal
//! signal is re-raised against the shell or suppressed while a foreground
//! child runs.

mod builtins;
mod prompt;
mod relay;
mod session;
mod startup;
mod strutil;
mod tokenize;

pub use builtins::{
    is_builtin, lemma_cd_home_default, lemma_cd_many_args_usage, lemma_pwd_args_usage, run_builtin,
    spec_builtin_action, spec_is_builtin, BuiltinAction,
};
pub use prompt::{get_prompt, test_wrapper_get_prompt};
pub use relay::{RelayAction, RelaySignal, RelayState, SignalHandler};
pub use session::{classify_line, spec_line_kind, LineKind};
pub use startup::{
    handle_args, spec_startup_action, StartupAction, VERSION_MAJOR, VERSION_MINOR,
};
pub use strutil::str_eq;
pub use tokenize::{
    all_space, is_space, is_space_char, join_ws, lemma_tokenize_round_trip,
    lemma_tokenize_single_space_join, lemma_tokens_all_space, lemma_tokens_wf, no_space, parse_cmd,
    test_wrapper_parse_cmd, tokens, wf_tokens,
};
