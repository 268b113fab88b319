//! The answer of a retrieve-and-generate request.

use vstd::prelude::*;
use aws_sdk_bedrockagentruntime::operation::retrieve_and_generate::RetrieveAndGenerateError;
use aws_sdk_bedrockagentruntime::operation::retrieve_and_generate::RetrieveAndGenerateOutput;
use crate::boundary::{
    generated_text, read_generated_text, read_retrieve_and_generate_error,
    retrieve_and_generate_fault,
};
use crate::error::{
    reason_text, translated, BedrockConverseError, ClientError, FaultView, ServiceFault,
};

verus! {

/// The reason given where a response holds no output.
pub open spec fn no_output_text() -> Seq<char> {
    "no output"@
}

/// The generated text if the response holds one, else the error whose
/// reason is [`no_output_text`].
pub fn text_or_no_output(text: Option<String>) -> (result: Result<String, BedrockConverseError>)
    ensures
        match text {
            Some(t) => result is Ok && result->Ok_0@ == t@,
            None => result is Err && result->Err_0@ == no_output_text(),
        },
{
    match text {
        Some(t) => Ok(t),
        None => Err(BedrockConverseError::from("no output")),
    }
}

/// The text that a retrieve-and-generate response holds. Fails, with the
/// reason [`no_output_text`], exactly if the response holds no output.
pub fn get_rag_output_text(output: RetrieveAndGenerateOutput) -> (result: Result<
    String,
    BedrockConverseError,
>)
    ensures
        match generated_text(output) {
            Some(t) => result is Ok && result->Ok_0@ == t,
            None => result is Err && result->Err_0@ == no_output_text(),
        },
{
    text_or_no_output(read_generated_text(&output))
}

/// The reason given for a request that got no response: the translated
/// fault where the service reported one, and a fixed text where it did not.
pub open spec fn rejection_text(fault: Option<FaultView>) -> Seq<char> {
    match fault {
        Some(f) => reason_text(translated(f)),
        None => "Unknown service error"@,
    }
}

/// The error for a request that got no response, with the service's fault
/// if the service reported one.
pub fn rejection_of(fault: Option<&ServiceFault>) -> (error: BedrockConverseError)
    ensures
        error@ == rejection_text(
            match fault {
                Some(f) => Some(f@),
                None => None,
            },
        ),
{
    match fault {
        Some(f) => BedrockConverseError::from(ClientError::translate(f)),
        None => BedrockConverseError::from("Unknown service error"),
    }
}

/// The error for a retrieve-and-generate request that got no response,
/// where `error` is the service's error if the failure came from the
/// service.
pub fn rejection(error: Option<&RetrieveAndGenerateError>) -> (rejected: BedrockConverseError)
    ensures
        rejected@ == rejection_text(
            match error {
                Some(e) => Some(retrieve_and_generate_fault(*e)),
                None => None,
            },
        ),
{
    match error {
        Some(e) => {
            let fault = read_retrieve_and_generate_error(e);
            rejection_of(Some(&fault))
        },
        None => rejection_of(None),
    }
}

} // verus!
