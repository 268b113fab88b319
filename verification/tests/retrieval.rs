use aws_sdk_bedrockagentruntime::operation::retrieve_and_generate::RetrieveAndGenerateError;
use aws_sdk_bedrockagentruntime::operation::retrieve_and_generate::RetrieveAndGenerateOutput;
use aws_sdk_bedrockagentruntime::types::error::AccessDeniedException;
use aws_sdk_bedrockagentruntime::types::RetrieveAndGenerateOutput as GeneratedOutput;
use hello_bedrock::error::{BedrockConverseError, ServiceFault};
use hello_bedrock::retrieval::{get_rag_output_text, rejection, rejection_of, text_or_no_output};

#[test]
fn rag_output_text_is_the_generated_text() {
    let generated = GeneratedOutput::builder().text("Paris is the capital.").build().unwrap();
    let output = RetrieveAndGenerateOutput::builder()
        .session_id("session-1")
        .output(generated)
        .build()
        .unwrap();
    assert_eq!(get_rag_output_text(output), Ok("Paris is the capital.".to_string()));
}

#[test]
fn rag_output_text_may_be_empty() {
    let generated = GeneratedOutput::builder().text("").build().unwrap();
    let output = RetrieveAndGenerateOutput::builder()
        .session_id("session-2")
        .output(generated)
        .build()
        .unwrap();
    assert_eq!(get_rag_output_text(output), Ok(String::new()));
}

#[test]
fn rag_output_without_output_fails() {
    let output = RetrieveAndGenerateOutput::builder().session_id("session-3").build().unwrap();
    assert_eq!(
        get_rag_output_text(output),
        Err(BedrockConverseError("no output".to_string()))
    );
}

#[test]
fn rag_text_is_not_the_session_id() {
    let generated = GeneratedOutput::builder().text("answer").build().unwrap();
    let output = RetrieveAndGenerateOutput::builder()
        .session_id("answer-session")
        .output(generated)
        .build()
        .unwrap();
    assert_eq!(get_rag_output_text(output).unwrap(), "answer");
}

#[test]
fn text_or_no_output_on_plain_values() {
    assert_eq!(text_or_no_output(Some("x".to_string())), Ok("x".to_string()));
    assert_eq!(
        text_or_no_output(None),
        Err(BedrockConverseError("no output".to_string()))
    );
    assert_eq!(
        text_or_no_output(None).unwrap_err().describe(),
        "Can't invoke. Reason: no output"
    );
}

#[test]
fn rejection_without_a_service_error_has_a_fixed_reason() {
    assert_eq!(rejection(None), BedrockConverseError("Unknown service error".to_string()));
    assert_eq!(rejection_of(None), BedrockConverseError("Unknown service error".to_string()));
}

#[test]
fn rejection_translates_the_service_error() {
    let denied = RetrieveAndGenerateError::AccessDeniedException(
        AccessDeniedException::builder().build(),
    );
    assert_eq!(rejection(Some(&denied)), BedrockConverseError("Access Denied".to_string()));
    assert_eq!(
        rejection_of(Some(&ServiceFault::Throttling)),
        BedrockConverseError("You are getting Throttled".to_string())
    );
    assert_eq!(
        rejection_of(Some(&ServiceFault::Other(None))),
        BedrockConverseError("Unknown".to_string())
    );
}
