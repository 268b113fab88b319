//! Resource names (ARNs) of Bedrock models.
//!
//! A model that is reached through a cross-region inference profile is named
//! within an account; a foundation model is named without one.

use vstd::prelude::*;
use vstd::string::*;
use crate::error::BedrockConverseError;

verus! {

/// Whether `s` begins with `prefix`.
pub open spec fn has_prefix(s: Seq<char>, prefix: Seq<char>) -> bool {
    prefix.len() <= s.len() && s.subrange(0, prefix.len() as int) == prefix
}

/// Whether a model identifier names an inference profile: those of the
/// regions `us.` and `eu.` do.
pub open spec fn names_inference_profile(model: Seq<char>) -> bool {
    has_prefix(model, "us."@) || has_prefix(model, "eu."@)
}

/// The ARN of an inference profile.
pub open spec fn inference_profile_arn(
    region: Seq<char>,
    account: Seq<char>,
    model: Seq<char>,
) -> Seq<char> {
    "arn:aws:bedrock:"@ + region + ":"@ + account + ":inference-profile/"@ + model
}

/// The ARN of a foundation model. Its account segment is empty.
pub open spec fn foundation_model_arn(region: Seq<char>, model: Seq<char>) -> Seq<char> {
    "arn:aws:bedrock:"@ + region + "::foundation-model/"@ + model
}

/// The ARN of a model in a region, as seen from an account.
pub open spec fn arn_text(region: Seq<char>, account: Seq<char>, model: Seq<char>) -> Seq<char> {
    if names_inference_profile(model) {
        inference_profile_arn(region, account, model)
    } else {
        foundation_model_arn(region, model)
    }
}

/// Whether `s` begins with `prefix`.
pub fn starts_with(s: &str, prefix: &str) -> (b: bool)
    ensures
        b == has_prefix(s@, prefix@),
{
    let n = prefix.unicode_len();
    if s.unicode_len() < n {
        return false;
    }
    let mut i: usize = 0;
    while i < n
        invariant
            i <= n,
            n == prefix@.len(),
            n <= s@.len(),
            forall|j: int| 0 <= j < i ==> s@[j] == prefix@[j],
        decreases n - i,
    {
        if s.get_char(i) != prefix.get_char(i) {
            assert(s@.subrange(0, n as int)[i as int] != prefix@[i as int]);
            return false;
        }
        i = i + 1;
    }
    assert(s@.subrange(0, n as int) =~= prefix@);
    true
}

/// Generates the ARN of `model` in region `r` for account `a`: that of an
/// inference profile where the identifier begins with `us.` or `eu.`, and
/// that of a foundation model, which has no account segment, for every
/// other identifier. Never fails.
pub fn generate_arn(r: &str, a: &str, model: &str) -> (result: Result<String, BedrockConverseError>)
    ensures
        result is Ok,
        result->Ok_0@ == arn_text(r@, a@, model@),
{
    let mut arn = String::from_str("arn:aws:bedrock:");
    arn.append(r);
    if starts_with(model, "us.") || starts_with(model, "eu.") {
        arn.append(":");
        arn.append(a);
        arn.append(":inference-profile/");
    } else {
        arn.append("::foundation-model/");
    }
    arn.append(model);
    Ok(arn)
}

} // verus!
