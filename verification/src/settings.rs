//! What a program needs from its surroundings before it can send anything:
//! the identifiers that must be set in the environment, and the name of the
//! profile to read.

use vstd::prelude::*;

verus! {

/// A setting that a program cannot run without.
#[derive(Debug, Clone, Copy, PartialEq, Eq)]
pub enum Setting {
    /// The identifier of the guardrail.
    GuardrailId,
    /// The identifier of the knowledge base.
    KnowledgeBaseId,
}

/// The name of the environment variable that holds a setting.
pub open spec fn variable_text(setting: Setting) -> Seq<char> {
    match setting {
        Setting::GuardrailId => "GUARDRAIL_ID"@,
        Setting::KnowledgeBaseId => "KB_ID"@,
    }
}

impl Setting {
    /// The name of the environment variable that holds this setting.
    pub fn variable(&self) -> (name: &'static str)
        ensures
            name@ == variable_text(*self),
    {
        match self {
            Setting::GuardrailId => "GUARDRAIL_ID",
            Setting::KnowledgeBaseId => "KB_ID",
        }
    }
}

/// A required setting has no value.
#[derive(Debug, PartialEq, Eq)]
pub struct MissingSetting(pub Setting);

/// The value of a required setting; fails, naming the setting, exactly if
/// there is no value.
pub fn require(setting: Setting, value: Option<String>) -> (result: Result<String, MissingSetting>)
    ensures
        match value {
            Some(v) => result == Ok::<String, MissingSetting>(v),
            None => result == Err::<String, MissingSetting>(MissingSetting(setting)),
        },
{
    match value {
        Some(v) => Ok(v),
        None => Err(MissingSetting(setting)),
    }
}

/// The profile that is used where none is named.
pub open spec fn default_profile_text() -> Seq<char> {
    "default"@
}

/// The name of the profile to read: the one given, or `default`.
pub fn profile_or_default(profile_name: Option<&String>) -> (profile: &str)
    ensures
        profile@ == match profile_name {
            Some(name) => name@,
            None => default_profile_text(),
        },
{
    match profile_name {
        Some(name) => name.as_str(),
        None => "default",
    }
}

} // verus!
