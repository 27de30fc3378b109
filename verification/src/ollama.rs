//! The chat endpoint of the inference server: what is sent to it, what it
//! answers, and the entry points of a logical request.

use crate::config::{or_default, Config, ConfigView};
use crate::dispatch::{enter_attempt, Action, Dispatcher, DispatcherView, Phase};
use crate::message::{views, Message, MessageView};
use crate::text::join;
use vstd::prelude::*;

verus! {

/// The model that serves a request when the operator names none.
pub const DEFAULT_CODE_MODEL: &'static str = "qwen3-coder:30b";

/// The context window of a request for which none was estimated.
pub const DEFAULT_CODE_NUM_CTX: u32 = 16384;

/// The path of the chat endpoint below the server's base address.
pub const CHAT_PATH: &'static str = "/api/chat";

/// The runtime options of a request. The sampling temperature is not a
/// setting: it is fixed at zero wherever a request is put on the wire.
#[derive(Clone, Copy, Debug, PartialEq, Eq, Structural)]
pub struct Options {
    /// The context window, in tokens, that the server allocates.
    pub num_ctx: u32,
}

/// One inference call. It is the same on every attempt of a logical request.
#[derive(Debug)]
pub struct OllamaRequest {
    /// Seconds the server keeps the model loaded afterwards.
    pub keep_alive: u16,
    pub messages: Vec<Message>,
    pub model: String,
    pub options: Options,
    /// Always `false`: one complete response is consumed.
    pub stream: bool,
}

/// The mathematical value of an [`OllamaRequest`].
pub struct OllamaRequestView {
    pub keep_alive: u16,
    pub messages: Seq<MessageView>,
    pub model: Seq<char>,
    pub num_ctx: u32,
    pub stream: bool,
}

impl View for OllamaRequest {
    type V = OllamaRequestView;

    open spec fn view(&self) -> OllamaRequestView {
        OllamaRequestView {
            keep_alive: self.keep_alive,
            messages: views(self.messages@),
            model: self.model@,
            num_ctx: self.options.num_ctx,
            stream: self.stream,
        }
    }
}

/// The reply of the chat endpoint to a successful call.
#[derive(Debug)]
pub struct OllamaResponse {
    message: Message,
}

impl View for OllamaResponse {
    type V = MessageView;

    closed spec fn view(&self) -> MessageView {
        self.message@
    }
}

impl OllamaResponse {
    /// The reply that carries the given message.
    pub fn new(message: Message) -> (r: OllamaResponse)
        ensures
            r@ == message@,
    {
        OllamaResponse { message }
    }

    /// The words of the model.
    pub fn content(&self) -> (r: &str)
        ensures
            r@ == self@.content,
    {
        self.message.content.as_str()
    }
}

/// The model that serves the requests of a configuration.
pub open spec fn model_for(config: ConfigView) -> Seq<char> {
    or_default(config.model, DEFAULT_CODE_MODEL@)
}

/// The request that a configuration sends for a message sequence.
pub open spec fn envelope(
    config: ConfigView,
    messages: Seq<MessageView>,
    num_ctx: Option<u32>,
) -> OllamaRequestView {
    OllamaRequestView {
        keep_alive: config.keep_alive,
        messages,
        model: model_for(config),
        num_ctx: or_default(num_ctx, DEFAULT_CODE_NUM_CTX),
        stream: false,
    }
}

/// The address of the chat endpoint of a server.
pub open spec fn chat_url_text(host: Seq<char>) -> Seq<char> {
    host + CHAT_PATH@
}

/// Builds the request that a configuration sends for a message sequence.
pub fn build_request(config: &Config, messages: Vec<Message>, num_ctx: Option<u32>) -> (r:
    OllamaRequest)
    ensures
        r@ == envelope(config@, views(messages@), num_ctx),
{
    let model = match &config.model {
        Some(name) => name.clone(),
        None => DEFAULT_CODE_MODEL.to_owned(),
    };
    let window = match num_ctx {
        Some(n) => n,
        None => DEFAULT_CODE_NUM_CTX,
    };
    OllamaRequest {
        keep_alive: config.keep_alive,
        messages,
        model,
        options: Options { num_ctx: window },
        stream: false,
    }
}

/// The address of the chat endpoint of the configured server.
pub fn chat_url(config: &Config) -> (r: String)
    ensures
        r@ == chat_url_text(config@.ollama_host),
{
    join(config.ollama_host.as_str(), CHAT_PATH)
}

/// The dispatcher of a request that is about to enter the given attempt.
pub open spec fn dispatcher_for(
    config: ConfigView,
    messages: Seq<MessageView>,
    num_ctx: Option<u32>,
    attempt: nat,
) -> DispatcherView {
    DispatcherView {
        attempt,
        max_attempts: config.max_attempts as nat,
        phase: Phase::InFlight,
        request: envelope(config, messages, num_ctx),
        url: chat_url_text(config.ollama_host),
        timeout: config.timeout,
    }
}

/// Starts a logical request at the given attempt.
///
/// When the attempt exceeds the configured attempt count the request is
/// exhausted at once and nothing is sent; otherwise the first action is to
/// send the request.
pub fn request(config: &Config, messages: Vec<Message>, num_ctx: Option<u32>, attempt: u8) -> (r: (
    Dispatcher,
    Action,
))
    ensures
        (r.0@, r.1@) == enter_attempt(
            dispatcher_for(config@, views(messages@), num_ctx, attempt as nat),
        ),
        r.0@.well_formed(),
{
    let envelope = build_request(config, messages, num_ctx);
    let url = chat_url(config);
    Dispatcher::start(envelope, url, config.timeout, config.max_attempts, attempt)
}

} // verus!
