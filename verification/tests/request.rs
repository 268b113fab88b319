use hello_bedrock::request::{
    ChatRequest, Guardrail, KnowledgeBase, MAX_TOKENS, TEMPERATURE_HUNDREDTHS, TOP_P_HUNDREDTHS,
};

#[test]
fn fixed_sampling_parameters() {
    assert_eq!(TOP_P_HUNDREDTHS, 80);
    assert_eq!(TEMPERATURE_HUNDREDTHS, 50);
    assert_eq!(MAX_TOKENS, 2048);
    assert_eq!(TOP_P_HUNDREDTHS as f32 / 100.0, 0.8_f32);
    assert_eq!(TEMPERATURE_HUNDREDTHS as f32 / 100.0, 0.5_f32);
}

#[test]
fn bare_request_has_the_fixed_prompt_and_parameters() {
    let request = ChatRequest::bare("What is Rust?\n".to_string());
    assert_eq!(request.system_prompt(), "You are a helpful assistant.");
    assert_eq!(request.user_message(), "What is Rust?\n");
    assert_eq!(request.top_p_hundredths(), 80);
    assert_eq!(request.temperature_hundredths(), 50);
    assert_eq!(request.max_tokens(), 2048);
    assert_eq!(request.guardrail(), None);
    assert_eq!(request.knowledge_base(), None);
}

#[test]
fn guarded_request_names_the_guardrail_in_version_two() {
    let request = ChatRequest::guarded("hello".to_string(), "gr-123".to_string());
    assert_eq!(
        request.guardrail(),
        Some(&Guardrail { identifier: "gr-123".to_string(), version: "2".to_string() })
    );
    assert_eq!(request.knowledge_base(), None);
    assert_eq!(request.user_message(), "hello");
    assert_eq!(request.system_prompt(), "You are a helpful assistant.");
    assert_eq!(request.max_tokens(), 2048);
}

#[test]
fn grounded_request_names_the_knowledge_base_and_model() {
    let request = ChatRequest::grounded(
        "hello".to_string(),
        "kb-9".to_string(),
        "arn:aws:bedrock:us-east-1::foundation-model/m".to_string(),
    );
    assert_eq!(
        request.knowledge_base(),
        Some(&KnowledgeBase {
            id: "kb-9".to_string(),
            model_reference: "arn:aws:bedrock:us-east-1::foundation-model/m".to_string(),
        })
    );
    assert_eq!(request.guardrail(), None);
    assert_eq!(request.top_p_hundredths(), 80);
    assert_eq!(request.temperature_hundredths(), 50);
}
