//! Translation of service faults into a small closed set of client errors,
//! each with a short reason that can be shown to the user.

use vstd::prelude::*;
use vstd::std_specs::convert::FromSpecImpl;
use vstd::string::*;
use aws_sdk_bedrockagentruntime::operation::retrieve_and_generate::RetrieveAndGenerateError;
use aws_sdk_bedrockruntime::operation::converse::ConverseError;
use aws_sdk_bedrockruntime::operation::converse_stream::ConverseStreamError;
use aws_sdk_bedrockruntime::types::error::ConverseStreamOutputError;
use crate::boundary::{
    converse_fault, converse_stream_fault, read_converse_error, read_converse_stream_error,
    read_retrieve_and_generate_error, read_stream_output_error, retrieve_and_generate_fault,
    stream_output_fault,
};

verus! {

/// What the service reported, reduced to what the translation reads: the
/// variant, and for the variants that carry free text, the message if the
/// service sent one.
#[derive(Debug, PartialEq, Eq)]
pub enum ServiceFault {
    /// The model did not answer in time.
    ModelTimeout,
    /// The model cannot serve requests yet.
    ModelNotReady,
    /// Too many requests.
    Throttling,
    /// The caller lacks permission.
    AccessDenied,
    /// The request did not pass validation.
    Validation(Option<String>),
    /// Any other fault, known to the service or not.
    Other(Option<String>),
}

/// Mathematical model of a [`ServiceFault`].
pub enum FaultView {
    ModelTimeout,
    ModelNotReady,
    Throttling,
    AccessDenied,
    Validation(Option<Seq<char>>),
    Other(Option<Seq<char>>),
}

impl View for ServiceFault {
    type V = FaultView;

    open spec fn view(&self) -> FaultView {
        match *self {
            ServiceFault::ModelTimeout => FaultView::ModelTimeout,
            ServiceFault::ModelNotReady => FaultView::ModelNotReady,
            ServiceFault::Throttling => FaultView::Throttling,
            ServiceFault::AccessDenied => FaultView::AccessDenied,
            ServiceFault::Validation(m) => FaultView::Validation(m.deep_view()),
            ServiceFault::Other(m) => FaultView::Other(m.deep_view()),
        }
    }
}

/// The closed set of errors that a caller of the service can see.
#[derive(Debug, PartialEq, Eq)]
pub enum ClientError {
    ModelTimeout,
    ModelNotReady,
    AccessDenied,
    Throttled,
    /// Carries the service's message, or a placeholder.
    ValidationFailed(String),
    /// Carries the service's message, or a placeholder.
    Unknown(String),
}

/// Mathematical model of a [`ClientError`].
pub enum ClientErrorView {
    ModelTimeout,
    ModelNotReady,
    AccessDenied,
    Throttled,
    ValidationFailed(Seq<char>),
    Unknown(Seq<char>),
}

impl View for ClientError {
    type V = ClientErrorView;

    open spec fn view(&self) -> ClientErrorView {
        match *self {
            ClientError::ModelTimeout => ClientErrorView::ModelTimeout,
            ClientError::ModelNotReady => ClientErrorView::ModelNotReady,
            ClientError::AccessDenied => ClientErrorView::AccessDenied,
            ClientError::Throttled => ClientErrorView::Throttled,
            ClientError::ValidationFailed(d) => ClientErrorView::ValidationFailed(d@),
            ClientError::Unknown(d) => ClientErrorView::Unknown(d@),
        }
    }
}

/// Detail of a validation failure that came without a message.
pub open spec fn validation_placeholder() -> Seq<char> {
    "Unknown ValidationException"@
}

/// Detail of an unrecognised fault that came without a message, where the
/// service rejected a request.
pub open spec fn unknown_placeholder() -> Seq<char> {
    "Unknown"@
}

/// Detail of an unrecognised fault that came without a message, where the
/// service broke off a response stream.
pub open spec fn stream_output_placeholder() -> Seq<char> {
    "Unknown StreamOutput exception"@
}

/// The message if there is one, else the placeholder.
pub open spec fn detail_or(message: Option<Seq<char>>, placeholder: Seq<char>) -> Seq<char> {
    match message {
        Some(m) => m,
        None => placeholder,
    }
}

/// The translation table: which client error each service fault becomes,
/// where `unknown` is the detail of an unrecognised fault that came without
/// a message.
pub open spec fn translated_with(fault: FaultView, unknown: Seq<char>) -> ClientErrorView {
    match fault {
        FaultView::ModelTimeout => ClientErrorView::ModelTimeout,
        FaultView::ModelNotReady => ClientErrorView::ModelNotReady,
        FaultView::Throttling => ClientErrorView::Throttled,
        FaultView::AccessDenied => ClientErrorView::AccessDenied,
        FaultView::Validation(m) => ClientErrorView::ValidationFailed(
            detail_or(m, validation_placeholder()),
        ),
        FaultView::Other(m) => ClientErrorView::Unknown(detail_or(m, unknown)),
    }
}

/// The translation of a fault with which the service rejected a request.
pub open spec fn translated(fault: FaultView) -> ClientErrorView {
    translated_with(fault, unknown_placeholder())
}

/// The reason shown for each client error.
pub open spec fn reason_text(error: ClientErrorView) -> Seq<char> {
    match error {
        ClientErrorView::ModelTimeout => "Model took too long"@,
        ClientErrorView::ModelNotReady => "Model is not ready"@,
        ClientErrorView::AccessDenied => "Access Denied"@,
        ClientErrorView::Throttled => "You are getting Throttled"@,
        ClientErrorView::ValidationFailed(d) => d,
        ClientErrorView::Unknown(d) => d,
    }
}

/// The message if there is one, else a copy of the placeholder.
fn message_or(message: &Option<String>, placeholder: &str) -> (detail: String)
    ensures
        detail@ == detail_or(message.deep_view(), placeholder@),
{
    match message {
        Some(m) => m.clone(),
        None => String::from_str(placeholder),
    }
}

impl ClientError {
    /// Translates a service fault by the fixed table [`translated_with`],
    /// with `unknown` as the detail of an unrecognised fault that came
    /// without a message.
    pub fn translate_with(fault: &ServiceFault, unknown: &str) -> (error: ClientError)
        ensures
            error@ == translated_with(fault@, unknown@),
    {
        match fault {
            ServiceFault::ModelTimeout => ClientError::ModelTimeout,
            ServiceFault::ModelNotReady => ClientError::ModelNotReady,
            ServiceFault::Throttling => ClientError::Throttled,
            ServiceFault::AccessDenied => ClientError::AccessDenied,
            ServiceFault::Validation(m) => ClientError::ValidationFailed(
                message_or(m, "Unknown ValidationException"),
            ),
            ServiceFault::Other(m) => ClientError::Unknown(message_or(m, unknown)),
        }
    }

    /// Translates a fault with which the service rejected a request.
    pub fn translate(fault: &ServiceFault) -> (error: ClientError)
        ensures
            error@ == translated(fault@),
    {
        ClientError::translate_with(fault, "Unknown")
    }

    /// Translates a fault with which the service broke off a response
    /// stream.
    pub fn translate_on_stream(fault: &ServiceFault) -> (error: ClientError)
        ensures
            error@ == translated_with(fault@, stream_output_placeholder()),
    {
        ClientError::translate_with(fault, "Unknown StreamOutput exception")
    }

    /// The reason to show for this error.
    pub fn reason(&self) -> (text: String)
        ensures
            text@ == reason_text(self@),
    {
        match self {
            ClientError::ModelTimeout => String::from_str("Model took too long"),
            ClientError::ModelNotReady => String::from_str("Model is not ready"),
            ClientError::AccessDenied => String::from_str("Access Denied"),
            ClientError::Throttled => String::from_str("You are getting Throttled"),
            ClientError::ValidationFailed(d) => d.clone(),
            ClientError::Unknown(d) => d.clone(),
        }
    }
}

/// The line that reports a failed invocation with the given reason.
pub open spec fn description_text(reason: Seq<char>) -> Seq<char> {
    "Can't invoke. Reason: "@ + reason
}

/// Builds the line [`description_text`] for a reason.
fn description(reason: &str) -> (line: String)
    ensures
        line@ == description_text(reason@),
{
    let mut line = String::from_str("Can't invoke. Reason: ");
    line.append(reason);
    line
}

/// Why a streamed conversation could not be invoked, or broke off. The
/// field is the reason.
#[derive(Debug, PartialEq, Eq)]
pub struct BedrockConverseStreamError(pub String);

impl View for BedrockConverseStreamError {
    type V = Seq<char>;

    open spec fn view(&self) -> Seq<char> {
        self.0@
    }
}

impl BedrockConverseStreamError {
    /// The line to show for this error.
    pub fn describe(&self) -> (line: String)
        ensures
            line@ == description_text(self@),
    {
        description(self.0.as_str())
    }
}

impl From<&str> for BedrockConverseStreamError {
    /// The error with the given reason.
    fn from(value: &str) -> (error: Self)
        ensures
            error@ == value@,
    {
        BedrockConverseStreamError(String::from_str(value))
    }
}

impl From<ClientError> for BedrockConverseStreamError {
    /// The error whose reason is that of a client error.
    fn from(value: ClientError) -> (error: Self)
        ensures
            error@ == reason_text(value@),
    {
        BedrockConverseStreamError(value.reason())
    }
}

impl From<&ConverseStreamError> for BedrockConverseStreamError {
    /// Translates the error with which the service rejected a streamed
    /// conversation.
    fn from(value: &ConverseStreamError) -> (error: Self)
        ensures
            error@ == reason_text(translated(converse_stream_fault(*value))),
    {
        let fault = read_converse_stream_error(value);
        BedrockConverseStreamError::from(ClientError::translate(&fault))
    }
}

impl From<&ConverseStreamOutputError> for BedrockConverseStreamError {
    /// Translates the error with which the service broke off a stream.
    fn from(value: &ConverseStreamOutputError) -> (error: Self)
        ensures
            error@ == reason_text(
                translated_with(stream_output_fault(*value), stream_output_placeholder()),
            ),
    {
        let fault = read_stream_output_error(value);
        BedrockConverseStreamError::from(ClientError::translate_on_stream(&fault))
    }
}

/// Why a conversation or a retrieval could not be invoked. The field is the
/// reason.
#[derive(Debug, PartialEq, Eq)]
pub struct BedrockConverseError(pub String);

impl View for BedrockConverseError {
    type V = Seq<char>;

    open spec fn view(&self) -> Seq<char> {
        self.0@
    }
}

impl BedrockConverseError {
    /// The line to show for this error.
    pub fn describe(&self) -> (line: String)
        ensures
            line@ == description_text(self@),
    {
        description(self.0.as_str())
    }
}

impl From<&str> for BedrockConverseError {
    /// The error with the given reason.
    fn from(value: &str) -> (error: Self)
        ensures
            error@ == value@,
    {
        BedrockConverseError(String::from_str(value))
    }
}

impl From<ClientError> for BedrockConverseError {
    /// The error whose reason is that of a client error.
    fn from(value: ClientError) -> (error: Self)
        ensures
            error@ == reason_text(value@),
    {
        BedrockConverseError(value.reason())
    }
}

impl From<&ConverseError> for BedrockConverseError {
    /// Translates the error with which the service rejected a conversation.
    fn from(value: &ConverseError) -> (error: Self)
        ensures
            error@ == reason_text(translated(converse_fault(*value))),
    {
        let fault = read_converse_error(value);
        BedrockConverseError::from(ClientError::translate(&fault))
    }
}

impl From<&RetrieveAndGenerateError> for BedrockConverseError {
    /// Translates the error with which the service rejected a retrieval.
    fn from(value: &RetrieveAndGenerateError) -> (error: Self)
        ensures
            error@ == reason_text(translated(retrieve_and_generate_fault(*value))),
    {
        let fault = read_retrieve_and_generate_error(value);
        BedrockConverseError::from(ClientError::translate(&fault))
    }
}

// Each conversion above states its result in its own `ensures`, over the view
// of the error. A reason has no constructor in specifications, so none of
// them has a `from_spec` to obey.

impl FromSpecImpl<&str> for BedrockConverseStreamError {
    open spec fn obeys_from_spec() -> bool {
        false
    }

    open spec fn from_spec(value: &str) -> Self {
        arbitrary()
    }
}

impl FromSpecImpl<ClientError> for BedrockConverseStreamError {
    open spec fn obeys_from_spec() -> bool {
        false
    }

    open spec fn from_spec(value: ClientError) -> Self {
        arbitrary()
    }
}

impl FromSpecImpl<&ConverseStreamError> for BedrockConverseStreamError {
    open spec fn obeys_from_spec() -> bool {
        false
    }

    open spec fn from_spec(value: &ConverseStreamError) -> Self {
        arbitrary()
    }
}

impl FromSpecImpl<&ConverseStreamOutputError> for BedrockConverseStreamError {
    open spec fn obeys_from_spec() -> bool {
        false
    }

    open spec fn from_spec(value: &ConverseStreamOutputError) -> Self {
        arbitrary()
    }
}

impl FromSpecImpl<&str> for BedrockConverseError {
    open spec fn obeys_from_spec() -> bool {
        false
    }

    open spec fn from_spec(value: &str) -> Self {
        arbitrary()
    }
}

impl FromSpecImpl<ClientError> for BedrockConverseError {
    open spec fn obeys_from_spec() -> bool {
        false
    }

    open spec fn from_spec(value: ClientError) -> Self {
        arbitrary()
    }
}

impl FromSpecImpl<&ConverseError> for BedrockConverseError {
    open spec fn obeys_from_spec() -> bool {
        false
    }

    open spec fn from_spec(value: &ConverseError) -> Self {
        arbitrary()
    }
}

impl FromSpecImpl<&RetrieveAndGenerateError> for BedrockConverseError {
    open spec fn obeys_from_spec() -> bool {
        false
    }

    open spec fn from_spec(value: &RetrieveAndGenerateError) -> Self {
        arbitrary()
    }
}

} // verus!
