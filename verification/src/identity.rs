//! The account on whose behalf a program runs.

use vstd::prelude::*;
use crate::error::BedrockConverseError;

verus! {

/// The reason given where the caller's identity names no account.
pub open spec fn no_account_text() -> Seq<char> {
    "Failed to extract Error"@
}

/// The account that the caller's identity names; fails, with the reason
/// [`no_account_text`], exactly if it names none.
pub fn account_or_error(account: Option<String>) -> (result: Result<String, BedrockConverseError>)
    ensures
        match account {
            Some(a) => result is Ok && result->Ok_0@ == a@,
            None => result is Err && result->Err_0@ == no_account_text(),
        },
{
    match account {
        Some(a) => Ok(a),
        None => Err(BedrockConverseError::from("Failed to extract Error")),
    }
}

} // verus!
