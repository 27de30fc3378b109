//! The failures that halt the pipeline.

use vstd::prelude::*;

verus! {

/// A failure that ends a pipeline invocation with an error value.
///
/// Usage errors are raised before any network activity; protocol failures are
/// raised after a completed exchange and are never retried.
#[derive(Clone, Copy, Debug, PartialEq, Eq, Structural)]
pub enum Error {
    /// The address of the inference server was not configured.
    OllamaHostAddresMissing,
    /// The exchange completed with a status other than 200 or 201.
    OllamaRequestProblem,
    /// The selected mode needs a question and none was supplied.
    QuestionMissing,
    /// The selected mode needs acceptance criteria and none were supplied.
    CriteriaMissing,
    /// The assembled messages are too long for a 32-bit context size.
    MessagesTooLong,
    /// The HTTP client could not be constructed.
    ClientUnavailable,
    /// A success status arrived but its body could not be received.
    ReplyUnreadable,
    /// A success status arrived but its body is not the expected reply.
    ReplyMalformed,
}

impl Error {
    /// Whether the error reports a missing required input.
    pub open spec fn is_usage(self) -> bool {
        self == Error::QuestionMissing || self == Error::CriteriaMissing
    }

    /// Whether the error reports a completed exchange that cannot be used.
    pub open spec fn is_protocol(self) -> bool {
        self == Error::OllamaRequestProblem || self == Error::ReplyUnreadable || self
            == Error::ReplyMalformed
    }

    /// Whether the error reports a missing required input.
    pub fn is_usage_error(&self) -> (r: bool)
        ensures
            r == self.is_usage(),
    {
        match self {
            Error::QuestionMissing | Error::CriteriaMissing => true,
            _ => false,
        }
    }

    /// Whether the error reports a completed exchange that cannot be used.
    pub fn is_protocol_failure(&self) -> (r: bool)
        ensures
            r == self.is_protocol(),
    {
        match self {
            Error::OllamaRequestProblem | Error::ReplyUnreadable | Error::ReplyMalformed => true,
            _ => false,
        }
    }

    /// The text shown to the operator for this error.
    pub open spec fn message_text(self) -> Seq<char> {
        match self {
            Error::OllamaHostAddresMissing => "OLLAMA_HOST address is missing"@,
            Error::OllamaRequestProblem => "problem with the request to the inference server"@,
            Error::QuestionMissing => "You need to provide --question with the question you want to ask."@,
            Error::CriteriaMissing => "You need to provide input --file with acceptance criteria."@,
            Error::MessagesTooLong => "the messages are too long for a context window"@,
            Error::ClientUnavailable => "the HTTP client could not be built"@,
            Error::ReplyUnreadable => "the reply body could not be received"@,
            Error::ReplyMalformed => "the reply body is not a chat reply"@,
        }
    }

    /// The text shown to the operator for this error.
    pub fn message(&self) -> (r: String)
        ensures
            r@ == self.message_text(),
    {
        let text: &str = match self {
            Error::OllamaHostAddresMissing => "OLLAMA_HOST address is missing",
            Error::OllamaRequestProblem => "problem with the request to the inference server",
            Error::QuestionMissing => "You need to provide --question with the question you want to ask.",
            Error::CriteriaMissing => "You need to provide input --file with acceptance criteria.",
            Error::MessagesTooLong => "the messages are too long for a context window",
            Error::ClientUnavailable => "the HTTP client could not be built",
            Error::ReplyUnreadable => "the reply body could not be received",
            Error::ReplyMalformed => "the reply body is not a chat reply",
        };
        text.to_owned()
    }
}

} // verus!
