use hello_bedrock::arn::{generate_arn, starts_with};

#[test]
fn us_model_gets_an_inference_profile_arn() {
    assert_eq!(
        generate_arn("us-east-1", "123456789012", "us.amazon.nova-pro-v1:0").unwrap(),
        "arn:aws:bedrock:us-east-1:123456789012:inference-profile/us.amazon.nova-pro-v1:0"
    );
}

#[test]
fn eu_model_gets_an_inference_profile_arn() {
    assert_eq!(
        generate_arn("eu-west-1", "42", "eu.amazon.nova-lite-v1:0").unwrap(),
        "arn:aws:bedrock:eu-west-1:42:inference-profile/eu.amazon.nova-lite-v1:0"
    );
}

#[test]
fn other_model_gets_a_foundation_model_arn_without_account() {
    assert_eq!(
        generate_arn("us-east-1", "123456789012", "amazon.titan-text-express-v1")
            .unwrap(),
        "arn:aws:bedrock:us-east-1::foundation-model/amazon.titan-text-express-v1"
    );
}

#[test]
fn region_prefix_must_be_complete_and_in_front() {
    assert_eq!(
        generate_arn("r", "a", "us").unwrap(),
        "arn:aws:bedrock:r::foundation-model/us"
    );
    assert_eq!(
        generate_arn("r", "a", "usa.model").unwrap(),
        "arn:aws:bedrock:r::foundation-model/usa.model"
    );
    assert_eq!(
        generate_arn("r", "a", "meta.us.model").unwrap(),
        "arn:aws:bedrock:r::foundation-model/meta.us.model"
    );
    assert_eq!(
        generate_arn("r", "a", "US.model").unwrap(),
        "arn:aws:bedrock:r::foundation-model/US.model"
    );
    assert_eq!(
        generate_arn("r", "a", "ap.model").unwrap(),
        "arn:aws:bedrock:r::foundation-model/ap.model"
    );
}

#[test]
fn bare_prefix_is_an_inference_profile() {
    assert_eq!(
        generate_arn("r", "a", "us.").unwrap(),
        "arn:aws:bedrock:r:a:inference-profile/us."
    );
    assert_eq!(
        generate_arn("r", "a", "eu.").unwrap(),
        "arn:aws:bedrock:r:a:inference-profile/eu."
    );
}

#[test]
fn empty_parts_are_kept_empty() {
    assert_eq!(generate_arn("", "", "").unwrap(), "arn:aws:bedrock:::foundation-model/");
    assert_eq!(
        generate_arn("", "", "us.m").unwrap(),
        "arn:aws:bedrock:::inference-profile/us.m"
    );
}

#[test]
fn arn_keeps_text_beyond_ascii() {
    assert_eq!(
        generate_arn("région", "ключ", "eu.modèle").unwrap(),
        "arn:aws:bedrock:région:ключ:inference-profile/eu.modèle"
    );
    assert_eq!(
        generate_arn("région", "ключ", "éu.modèle").unwrap(),
        "arn:aws:bedrock:région::foundation-model/éu.modèle"
    );
}

#[test]
fn starts_with_agrees_with_std() {
    let cases = [
        ("", ""),
        ("abc", ""),
        ("", "a"),
        ("abc", "abc"),
        ("abc", "abcd"),
        ("abc", "ab"),
        ("abc", "bc"),
        ("us.model", "us."),
        ("éa", "é"),
        ("éa", "e"),
        ("日本語", "日本"),
    ];
    for (s, prefix) in cases {
        assert_eq!(starts_with(s, prefix), s.starts_with(prefix));
    }
}
