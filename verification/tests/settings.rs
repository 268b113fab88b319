use hello_bedrock::settings::{profile_or_default, require, MissingSetting, Setting};

#[test]
fn required_setting_that_is_missing_fails() {
    assert_eq!(
        require(Setting::GuardrailId, None),
        Err(MissingSetting(Setting::GuardrailId))
    );
    assert_eq!(
        require(Setting::KnowledgeBaseId, None),
        Err(MissingSetting(Setting::KnowledgeBaseId))
    );
}

#[test]
fn required_setting_that_is_present_is_handed_on() {
    assert_eq!(
        require(Setting::GuardrailId, Some("gr-1".to_string())),
        Ok("gr-1".to_string())
    );
    assert_eq!(require(Setting::KnowledgeBaseId, Some(String::new())), Ok(String::new()));
}

#[test]
fn settings_are_read_from_their_variables() {
    assert_eq!(Setting::GuardrailId.variable(), "GUARDRAIL_ID");
    assert_eq!(Setting::KnowledgeBaseId.variable(), "KB_ID");
}

#[test]
fn profile_defaults_to_default() {
    assert_eq!(profile_or_default(None), "default");
    let named = "work".to_string();
    assert_eq!(profile_or_default(Some(&named)), "work");
    let empty = String::new();
    assert_eq!(profile_or_default(Some(&empty)), "");
}
