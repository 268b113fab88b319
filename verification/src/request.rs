//! The request that a program sends: one user message under a fixed system
//! prompt and fixed sampling parameters, optionally guarded by a guardrail
//! or grounded in a knowledge base.
//!
//! The sampling parameters are fractions. They are held in hundredths, so
//! that a request is made of integers and text only.

use vstd::prelude::*;
use vstd::string::*;

verus! {

/// Nucleus-sampling probability of every request, in hundredths: 0.8.
pub const TOP_P_HUNDREDTHS: u32 = 80;

/// Temperature of every request, in hundredths: 0.5.
pub const TEMPERATURE_HUNDREDTHS: u32 = 50;

/// Limit on the tokens of an answer.
pub const MAX_TOKENS: i32 = 2048;

/// The system prompt of every request.
pub open spec fn system_prompt_text() -> Seq<char> {
    "You are a helpful assistant."@
}

/// The version of the guardrail that a guarded request asks for.
pub open spec fn guardrail_version_text() -> Seq<char> {
    "2"@
}

/// A guardrail and the version of it to apply.
#[derive(Debug, PartialEq, Eq)]
pub struct Guardrail {
    pub identifier: String,
    pub version: String,
}

/// A knowledge base and the model that answers from it.
#[derive(Debug, PartialEq, Eq)]
pub struct KnowledgeBase {
    pub id: String,
    pub model_reference: String,
}

/// A request. Its prompt and sampling parameters are fixed when it is made,
/// and nothing changes it afterwards.
#[derive(Debug, PartialEq, Eq)]
pub struct ChatRequest {
    system_prompt: String,
    user_message: String,
    top_p_hundredths: u32,
    temperature_hundredths: u32,
    max_tokens: i32,
    guardrail: Option<Guardrail>,
    knowledge_base: Option<KnowledgeBase>,
}

/// What a request asks for beyond an answer to its message.
pub enum Attachment {
    /// Nothing.
    Bare,
    /// A guardrail, by identifier and version.
    Guarded(Seq<char>, Seq<char>),
    /// A knowledge base, by identifier and model reference.
    Grounded(Seq<char>, Seq<char>),
}

/// Mathematical model of a [`ChatRequest`].
pub struct RequestView {
    pub system_prompt: Seq<char>,
    pub user_message: Seq<char>,
    pub top_p_hundredths: int,
    pub temperature_hundredths: int,
    pub max_tokens: int,
    pub guardrail: Option<(Seq<char>, Seq<char>)>,
    pub knowledge_base: Option<(Seq<char>, Seq<char>)>,
}

/// The request for `user_message` with the fixed prompt and parameters and
/// the given attachment.
pub open spec fn request_for(user_message: Seq<char>, attachment: Attachment) -> RequestView {
    RequestView {
        system_prompt: system_prompt_text(),
        user_message,
        top_p_hundredths: TOP_P_HUNDREDTHS as int,
        temperature_hundredths: TEMPERATURE_HUNDREDTHS as int,
        max_tokens: MAX_TOKENS as int,
        guardrail: match attachment {
            Attachment::Guarded(identifier, version) => Some((identifier, version)),
            _ => None,
        },
        knowledge_base: match attachment {
            Attachment::Grounded(id, model_reference) => Some((id, model_reference)),
            _ => None,
        },
    }
}

impl View for ChatRequest {
    type V = RequestView;

    closed spec fn view(&self) -> RequestView {
        RequestView {
            system_prompt: self.system_prompt@,
            user_message: self.user_message@,
            top_p_hundredths: self.top_p_hundredths as int,
            temperature_hundredths: self.temperature_hundredths as int,
            max_tokens: self.max_tokens as int,
            guardrail: match self.guardrail {
                Some(g) => Some((g.identifier@, g.version@)),
                None => None,
            },
            knowledge_base: match self.knowledge_base {
                Some(k) => Some((k.id@, k.model_reference@)),
                None => None,
            },
        }
    }
}

impl ChatRequest {
    /// Whether the request carries the fixed prompt and parameters, and at
    /// most one of a guardrail and a knowledge base. Every request that
    /// this module makes does.
    pub open spec fn well_formed(&self) -> bool {
        &&& self@.system_prompt == system_prompt_text()
        &&& self@.top_p_hundredths == TOP_P_HUNDREDTHS
        &&& self@.temperature_hundredths == TEMPERATURE_HUNDREDTHS
        &&& self@.max_tokens == MAX_TOKENS
        &&& self@.guardrail is None || self@.knowledge_base is None
    }

    fn assemble(
        user_message: String,
        guardrail: Option<Guardrail>,
        knowledge_base: Option<KnowledgeBase>,
    ) -> (request: ChatRequest)
        ensures
            request.system_prompt@ == system_prompt_text(),
            request.user_message == user_message,
            request.top_p_hundredths == TOP_P_HUNDREDTHS,
            request.temperature_hundredths == TEMPERATURE_HUNDREDTHS,
            request.max_tokens == MAX_TOKENS,
            request.guardrail == guardrail,
            request.knowledge_base == knowledge_base,
    {
        ChatRequest {
            system_prompt: String::from_str("You are a helpful assistant."),
            user_message,
            top_p_hundredths: TOP_P_HUNDREDTHS,
            temperature_hundredths: TEMPERATURE_HUNDREDTHS,
            max_tokens: MAX_TOKENS,
            guardrail,
            knowledge_base,
        }
    }

    /// The request that asks for an answer to `user_message` and nothing
    /// more.
    pub fn bare(user_message: String) -> (request: ChatRequest)
        ensures
            request@ == request_for(user_message@, Attachment::Bare),
            request.well_formed(),
    {
        ChatRequest::assemble(user_message, None, None)
    }

    /// The request that asks for an answer to `user_message` under the
    /// guardrail `identifier`, in the version [`guardrail_version_text`].
    pub fn guarded(user_message: String, identifier: String) -> (request: ChatRequest)
        ensures
            request@ == request_for(
                user_message@,
                Attachment::Guarded(identifier@, guardrail_version_text()),
            ),
            request.well_formed(),
    {
        let guardrail = Guardrail { identifier, version: String::from_str("2") };
        ChatRequest::assemble(user_message, Some(guardrail), None)
    }

    /// The request that asks for an answer to `user_message` from the
    /// knowledge base `id`, generated by the model `model_reference`.
    pub fn grounded(user_message: String, id: String, model_reference: String) -> (request:
        ChatRequest)
        ensures
            request@ == request_for(user_message@, Attachment::Grounded(id@, model_reference@)),
            request.well_formed(),
    {
        let knowledge_base = KnowledgeBase { id, model_reference };
        ChatRequest::assemble(user_message, None, Some(knowledge_base))
    }

    /// The system prompt.
    pub fn system_prompt(&self) -> (text: &str)
        ensures
            text@ == self@.system_prompt,
    {
        self.system_prompt.as_str()
    }

    /// The user's message.
    pub fn user_message(&self) -> (text: &str)
        ensures
            text@ == self@.user_message,
    {
        self.user_message.as_str()
    }

    /// The nucleus-sampling probability, in hundredths.
    pub fn top_p_hundredths(&self) -> (value: u32)
        ensures
            value == self@.top_p_hundredths,
    {
        self.top_p_hundredths
    }

    /// The temperature, in hundredths.
    pub fn temperature_hundredths(&self) -> (value: u32)
        ensures
            value == self@.temperature_hundredths,
    {
        self.temperature_hundredths
    }

    /// The limit on the tokens of the answer.
    pub fn max_tokens(&self) -> (value: i32)
        ensures
            value == self@.max_tokens,
    {
        self.max_tokens
    }

    /// The guardrail, if the request is guarded.
    pub fn guardrail(&self) -> (guardrail: Option<&Guardrail>)
        ensures
            match guardrail {
                Some(g) => self@.guardrail == Some((g.identifier@, g.version@)),
                None => self@.guardrail is None,
            },
    {
        self.guardrail.as_ref()
    }

    /// The knowledge base, if the request is grounded.
    pub fn knowledge_base(&self) -> (knowledge_base: Option<&KnowledgeBase>)
        ensures
            match knowledge_base {
                Some(k) => self@.knowledge_base == Some((k.id@, k.model_reference@)),
                None => self@.knowledge_base is None,
            },
    {
        self.knowledge_base.as_ref()
    }
}

} // verus!
