use hello_bedrock::error::BedrockConverseError;
use hello_bedrock::identity::account_or_error;

#[test]
fn account_that_is_named_is_handed_on() {
    assert_eq!(
        account_or_error(Some("123456789012".to_string())),
        Ok("123456789012".to_string())
    );
    assert_eq!(account_or_error(Some(String::new())), Ok(String::new()));
}

#[test]
fn identity_without_account_fails() {
    assert_eq!(
        account_or_error(None),
        Err(BedrockConverseError("Failed to extract Error".to_string()))
    );
}
