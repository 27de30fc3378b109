//! Reading the reply of the chat endpoint out of the body of a successful
//! exchange.
//!
//! The body is parsed as JSON by `serde_json`. The reply is the text under
//! `message.content`; a body without it is malformed, whatever else it holds.

use crate::dispatch::{Event, EventView};
use crate::error::Error;
use crate::json::{json_document, json_member, json_text, json_texts, parse_json};
use crate::message::{Message, MessageView};
use crate::ollama::OllamaResponse;
use vstd::prelude::*;

verus! {

/// The key of the reply's message in the body.
pub const MESSAGE_KEY: &'static str = "message";

/// The key of the model's words in the message.
pub const CONTENT_KEY: &'static str = "content";

/// The key of the speaker's role in the message.
pub const ROLE_KEY: &'static str = "role";

/// Where the model's words stand in the body.
pub open spec fn content_path() -> Seq<Seq<char>> {
    seq![MESSAGE_KEY@, CONTENT_KEY@]
}

/// Where the speaker's role stands in the body.
pub open spec fn role_path() -> Seq<Seq<char>> {
    seq![MESSAGE_KEY@, ROLE_KEY@]
}

/// The reply among the strings of a body: the text under `message.content`
/// with the role under `message.role`, which is empty when the body names
/// none. Without a text under `message.content` there is no reply.
pub open spec fn reply_in(texts: Map<Seq<Seq<char>>, Seq<char>>) -> Option<MessageView> {
    if texts.contains_key(content_path()) {
        Some(
            MessageView {
                content: texts[content_path()],
                role: if texts.contains_key(role_path()) {
                    texts[role_path()]
                } else {
                    Seq::empty()
                },
            },
        )
    } else {
        None
    }
}

/// The reply that a body carries, if it is JSON and holds one.
pub open spec fn reply_of_body(body: Seq<char>) -> Option<MessageView> {
    match json_document(body) {
        Some(texts) => reply_in(texts),
        None => None,
    }
}

/// The event that the body of a successful exchange stands for.
pub open spec fn event_of_body(body: Seq<char>) -> EventView {
    match reply_of_body(body) {
        Some(message) => EventView::Reply(message.content),
        None => EventView::BodyMalformed,
    }
}

/// The string under `key` in `value`, when `value` is an object that holds a
/// string there.
fn text_member(value: &serde_json::Value, key: &str) -> (r: Option<String>)
    ensures
        match r {
            Some(text) => json_texts(*value).contains_key(seq![key@]) && json_texts(
                *value,
            )[seq![key@]] == text@,
            None => !json_texts(*value).contains_key(seq![key@]),
        },
{
    let ghost whole = json_texts(*value);
    let ghost nothing = Seq::<Seq<char>>::empty();
    assert(seq![key@] + nothing =~= seq![key@]);
    match json_member(value, key) {
        Some(member) => {
            assert(json_texts(*member).contains_key(nothing) == whole.contains_key(
                seq![key@] + nothing,
            ));
            match json_text(member) {
                Some(text) => Some(text.to_owned()),
                None => None,
            }
        },
        None => {
            assert(!whole.contains_key(seq![key@] + nothing));
            None
        },
    }
}

impl OllamaResponse {
    /// Reads the reply out of a parsed body.
    pub fn from_value(value: &serde_json::Value) -> (r: Option<OllamaResponse>)
        ensures
            match reply_in(json_texts(*value)) {
                Some(message) => r is Some && r->Some_0@ == message,
                None => r is None,
            },
    {
        let ghost whole = json_texts(*value);
        let ghost content = seq![CONTENT_KEY@];
        let ghost role = seq![ROLE_KEY@];
        proof {
            assert(seq![MESSAGE_KEY@] + content =~= content_path());
            assert(seq![MESSAGE_KEY@] + role =~= role_path());
        }
        match json_member(value, MESSAGE_KEY) {
            Some(message) => {
                assert(json_texts(*message).contains_key(content) == whole.contains_key(
                    seq![MESSAGE_KEY@] + content,
                ));
                assert(json_texts(*message).contains_key(role) == whole.contains_key(
                    seq![MESSAGE_KEY@] + role,
                ));
                match text_member(message, CONTENT_KEY) {
                    Some(words) => {
                        let speaker = match text_member(message, ROLE_KEY) {
                            Some(name) => name,
                            None => String::new(),
                        };
                        Some(OllamaResponse::new(Message { content: words, role: speaker }))
                    },
                    None => None,
                }
            },
            None => {
                assert(!whole.contains_key(seq![MESSAGE_KEY@] + content));
                None
            },
        }
    }

    /// Parses the body of a successful exchange.
    ///
    /// Fails with [`Error::ReplyMalformed`] exactly when the body is not JSON
    /// or holds no text under `message.content`.
    pub fn parse(body: &str) -> (r: Result<OllamaResponse, Error>)
        ensures
            match reply_of_body(body@) {
                Some(message) => r is Ok && r->Ok_0@ == message,
                None => r is Err && r->Err_0 == Error::ReplyMalformed,
            },
    {
        match parse_json(body) {
            Some(value) => match OllamaResponse::from_value(&value) {
                Some(response) => Ok(response),
                None => Err(Error::ReplyMalformed),
            },
            None => Err(Error::ReplyMalformed),
        }
    }
}

impl Event {
    /// The event that the body of a successful exchange stands for: the
    /// reply that it carries, or the report that it is malformed.
    pub fn from_body(body: &str) -> (r: Event)
        ensures
            r@ == event_of_body(body@),
    {
        match OllamaResponse::parse(body) {
            Ok(response) => Event::Reply(response),
            Err(_) => Event::BodyMalformed,
        }
    }
}

} // verus!
