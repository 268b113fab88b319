//! The boundary to the Bedrock SDK and to the banner font: the outside types
//! that pass through this library, and everything that is taken on trust
//! about reading them. Nothing in this file is proved; every other module
//! builds on the contracts stated here.
//!
//! The SDK's values are opaque to the verifier. Each reader below turns one
//! of them into a plain value of this library, and each has a companion spec
//! function that names what the reader finds, so that two reads of the same
//! value are known to agree.

use vstd::prelude::*;
use aws_sdk_bedrockagentruntime::operation::retrieve_and_generate::RetrieveAndGenerateError;
use aws_sdk_bedrockagentruntime::operation::retrieve_and_generate::RetrieveAndGenerateOutput;
use aws_sdk_bedrockruntime::operation::converse::ConverseError;
use aws_sdk_bedrockruntime::operation::converse_stream::ConverseStreamError;
use aws_sdk_bedrockruntime::types::error::ConverseStreamOutputError;
use aws_sdk_bedrockruntime::types::{ContentBlockDelta, ConverseStreamOutput};
use figlet_rs::FIGfont;
use crate::error::{FaultView, ServiceFault};
use crate::stream::{EventView, StreamEvent};

verus! {

/// The SDK's error of a rejected `ConverseStream` request. Opaque here.
#[verifier::external_type_specification]
#[verifier::external_body]
pub struct ExConverseStreamError(ConverseStreamError);

/// The SDK's error of a broken response stream. Opaque here.
#[verifier::external_type_specification]
#[verifier::external_body]
pub struct ExConverseStreamOutputError(ConverseStreamOutputError);

/// The SDK's error of a rejected `Converse` request. Opaque here.
#[verifier::external_type_specification]
#[verifier::external_body]
pub struct ExConverseError(ConverseError);

/// The SDK's error of a rejected `RetrieveAndGenerate` request. Opaque here.
#[verifier::external_type_specification]
#[verifier::external_body]
pub struct ExRetrieveAndGenerateError(RetrieveAndGenerateError);

/// The SDK's event of a response stream. Opaque here.
#[verifier::external_type_specification]
#[verifier::external_body]
pub struct ExConverseStreamOutput(ConverseStreamOutput);

/// The SDK's response to a `RetrieveAndGenerate` request. Opaque here.
#[verifier::external_type_specification]
#[verifier::external_body]
pub struct ExRetrieveAndGenerateOutput(RetrieveAndGenerateOutput);

/// The fault that a `ConverseStreamError` holds, as
/// [`read_converse_stream_error`] reads it. Nothing more is known of it.
pub uninterp spec fn converse_stream_fault(error: ConverseStreamError) -> FaultView;

/// The fault that a `ConverseStreamOutputError` holds, as
/// [`read_stream_output_error`] reads it. Nothing more is known of it.
pub uninterp spec fn stream_output_fault(error: ConverseStreamOutputError) -> FaultView;

/// The fault that a `ConverseError` holds, as [`read_converse_error`] reads
/// it. Nothing more is known of it.
pub uninterp spec fn converse_fault(error: ConverseError) -> FaultView;

/// The fault that a `RetrieveAndGenerateError` holds, as
/// [`read_retrieve_and_generate_error`] reads it. Nothing more is known of it.
pub uninterp spec fn retrieve_and_generate_fault(error: RetrieveAndGenerateError) -> FaultView;

/// The event that a `ConverseStreamOutput` holds, as [`read_stream_output`]
/// reads it. Nothing more is known of it.
pub uninterp spec fn stream_event(output: ConverseStreamOutput) -> EventView;

/// The generated text that a `RetrieveAndGenerateOutput` holds, if it holds
/// an output at all, as [`read_generated_text`] reads it. Nothing more is
/// known of it.
pub uninterp spec fn generated_text(output: RetrieveAndGenerateOutput) -> Option<Seq<char>>;

/// The banner that the standard FIGlet font draws for a message, if it draws
/// one, as [`draw_standard_banner`] renders it. Known of it is only that
/// there is none for the empty message.
pub uninterp spec fn standard_banner(message: Seq<char>) -> Option<Seq<char>>;

/// Tells the variants of `ConverseStreamError` apart: the four that the
/// translation knows by name, validation with the `message` field of its
/// exception, and every other variant with the message of its metadata.
/// Trusted: that the result depends on `error` alone.
#[verifier::external_body]
pub(crate) fn read_converse_stream_error(error: &ConverseStreamError) -> (fault: ServiceFault)
    ensures
        fault@ == converse_stream_fault(*error),
{
    match error {
        ConverseStreamError::ModelTimeoutException(_) => ServiceFault::ModelTimeout,
        ConverseStreamError::ModelNotReadyException(_) => ServiceFault::ModelNotReady,
        ConverseStreamError::ThrottlingException(_) => ServiceFault::Throttling,
        ConverseStreamError::AccessDeniedException(_) => ServiceFault::AccessDenied,
        ConverseStreamError::ValidationException(e) => ServiceFault::Validation(e.message.clone()),
        other => ServiceFault::Other(other.meta().message().map(String::from)),
    }
}

/// Tells the variants of `ConverseStreamOutputError` apart: throttling,
/// validation with the `message` field of its exception, and every other
/// variant with the message of its metadata.
/// Trusted: that the result depends on `error` alone.
#[verifier::external_body]
pub(crate) fn read_stream_output_error(error: &ConverseStreamOutputError) -> (fault: ServiceFault)
    ensures
        fault@ == stream_output_fault(*error),
{
    match error {
        ConverseStreamOutputError::ThrottlingException(_) => ServiceFault::Throttling,
        ConverseStreamOutputError::ValidationException(e) => ServiceFault::Validation(
            e.message.clone(),
        ),
        other => ServiceFault::Other(other.meta().message().map(String::from)),
    }
}

/// Tells the variants of `ConverseError` apart, as
/// [`read_converse_stream_error`] does for the streaming operation.
/// Trusted: that the result depends on `error` alone.
#[verifier::external_body]
pub(crate) fn read_converse_error(error: &ConverseError) -> (fault: ServiceFault)
    ensures
        fault@ == converse_fault(*error),
{
    match error {
        ConverseError::ModelTimeoutException(_) => ServiceFault::ModelTimeout,
        ConverseError::ModelNotReadyException(_) => ServiceFault::ModelNotReady,
        ConverseError::ThrottlingException(_) => ServiceFault::Throttling,
        ConverseError::AccessDeniedException(_) => ServiceFault::AccessDenied,
        ConverseError::ValidationException(e) => ServiceFault::Validation(e.message.clone()),
        other => ServiceFault::Other(other.meta().message().map(String::from)),
    }
}

/// Tells the variants of `RetrieveAndGenerateError` apart: access denied,
/// throttling, validation with the `message` field of its exception, and
/// every other variant with the message of its metadata.
/// Trusted: that the result depends on `error` alone.
#[verifier::external_body]
pub(crate) fn read_retrieve_and_generate_error(error: &RetrieveAndGenerateError) -> (fault:
    ServiceFault)
    ensures
        fault@ == retrieve_and_generate_fault(*error),
{
    match error {
        RetrieveAndGenerateError::AccessDeniedException(_) => ServiceFault::AccessDenied,
        RetrieveAndGenerateError::ThrottlingException(_) => ServiceFault::Throttling,
        RetrieveAndGenerateError::ValidationException(e) => ServiceFault::Validation(
            e.message.clone(),
        ),
        other => ServiceFault::Other(other.meta().message().map(String::from)),
    }
}

/// Tells a content delta from the other variants of `ConverseStreamOutput`,
/// and copies the delta's text where `ContentBlockDeltaEvent::delta` gives a
/// `ContentBlockDelta::Text`.
/// Trusted: that the result depends on `output` alone.
#[verifier::external_body]
pub(crate) fn read_stream_output(output: &ConverseStreamOutput) -> (event: StreamEvent)
    ensures
        event@ == stream_event(*output),
{
    match output {
        ConverseStreamOutput::ContentBlockDelta(event) => match event.delta() {
            Some(ContentBlockDelta::Text(text)) => StreamEvent::TextDelta(Some(text.clone())),
            _ => StreamEvent::TextDelta(None),
        },
        _ => StreamEvent::Other,
    }
}

/// Copies the text of `RetrieveAndGenerateOutput::output`, where there is
/// an output.
/// Trusted: that the result depends on `output` alone.
#[verifier::external_body]
pub(crate) fn read_generated_text(output: &RetrieveAndGenerateOutput) -> (text: Option<String>)
    ensures
        text.deep_view() == generated_text(*output),
{
    match output.output() {
        Some(generated) => Some(generated.text().to_string()),
        None => None,
    }
}

/// Draws `message` with `FIGfont::convert` in the font of
/// `FIGfont::standard`, and renders the figure as text.
/// Trusted: that the result depends on `message` alone (the font is built
/// into the crate), and that `convert` draws nothing for an empty message.
#[verifier::external_body]
pub(crate) fn draw_standard_banner(message: &str) -> (banner: Option<String>)
    ensures
        banner.deep_view() == standard_banner(message@),
        message@.len() == 0 ==> banner is None,
{
    match FIGfont::standard() {
        Ok(font) => match font.convert(message) {
            Some(figure) => Some(figure.to_string()),
            None => None,
        },
        Err(_) => None,
    }
}

} // verus!
