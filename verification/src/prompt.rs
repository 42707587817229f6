//! Computation of the shell prompt from the optional user customization.

use vstd::prelude::*;

verus! {

/// Builds the prompt string: the customized value (the prompt environment
/// variable, handed in by the caller) followed by exactly one space, or the
/// default `"shell> "` when there is none.
pub fn get_prompt(custom: Option<String>) -> (p: String)
    ensures
        custom is None ==> p@ == "shell> "@,
        custom matches Some(v) ==> p@ == v@ + " "@,
{
    match custom {
        Option::Some(v) => v.concat(" "),
        Option::None => "shell> ".to_owned(),
    }
}

/// Forwards to the prompt computation under a stable name for the test
/// suite.
pub fn test_wrapper_get_prompt(custom: Option<String>) -> (p: String)
    ensures
        custom is None ==> p@ == "shell> "@,
        custom matches Some(v) ==> p@ == v@ + " "@,
{
    get_prompt(custom)
}

} // verus!
