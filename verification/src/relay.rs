//! The chat relay handler's logic: classification of the upstream outcome
//! and extraction of the reply text from the provider's document.
//!
//! The handler is a single linear exchange with two failure exits: a
//! transport failure or an unparseable upstream body is an internal error, an
//! upstream rejection is a gateway error, and a successful upstream response
//! whose expected field is missing degrades to a fixed fallback reply rather
//! than failing.

use vstd::prelude::*;
use crate::config::{FALLBACK_MESSAGE, GATEWAY_ERROR_MESSAGE};
use crate::json::{JsonDoc, json_of, parse_json, value_as_str, value_element, value_member, value_model};

verus! {

/// The HTTP status the relay answers with on an internal failure.
pub const STATUS_INTERNAL_ERROR: u16 = 500;

/// The HTTP status the relay answers with when the upstream rejects the
/// request.
pub const STATUS_BAD_GATEWAY: u16 = 502;

/// The client's request: the user's text, with no validation applied.
#[derive(Debug)]
pub struct ChatRequest {
    pub message: String,
}

/// The relay's successful answer: the assistant's reply text, or the fixed
/// fallback when extraction failed.
#[derive(Debug)]
pub struct ChatResponse {
    pub message: String,
}

/// A failed exchange: the HTTP status to answer with and a short
/// description.
#[derive(Debug)]
pub struct RelayError {
    pub status: u16,
    pub message: String,
}

/// What came of the one outbound call: either the transport failed before a
/// response arrived, or the upstream answered with a status and a body.
#[derive(Debug)]
pub enum UpstreamEvent {
    TransportFailure(String),
    Response(u16, String),
}

/// Whether an upstream status counts as success.
pub open spec fn spec_is_success(status: u16) -> bool {
    200 <= status < 300
}

/// Whether an upstream status counts as success.
pub fn is_success_status(status: u16) -> (r: bool)
    ensures
        r == spec_is_success(status),
{
    200 <= status && status < 300
}

/// The reply text found at the fixed path through the provider's document:
/// the first completion's message content, when it is present and is a
/// string.
pub open spec fn spec_extract_content(doc: JsonDoc) -> Option<Seq<char>> {
    match doc {
        JsonDoc::Obj(fields) => if fields.contains_key("choices"@) {
            match fields["choices"@] {
                JsonDoc::Arr(items) => if items.len() > 0 {
                    match items[0] {
                        JsonDoc::Obj(first) => if first.contains_key("message"@) {
                            match first["message"@] {
                                JsonDoc::Obj(message) => if message.contains_key("content"@) {
                                    match message["content"@] {
                                        JsonDoc::Str(text) => Some(text),
                                        _ => None,
                                    }
                                } else {
                                    None
                                },
                                _ => None,
                            }
                        } else {
                            None
                        },
                        _ => None,
                    }
                } else {
                    None
                },
                _ => None,
            }
        } else {
            None
        },
        _ => None,
    }
}

/// The reply text the relay answers with for a parsed upstream document: the
/// extracted content, or the fixed fallback when the path is missing or not
/// a string.
pub open spec fn spec_reply_text(doc: JsonDoc) -> Seq<char> {
    match spec_extract_content(doc) {
        Some(text) => text,
        None => FALLBACK_MESSAGE@,
    }
}

/// Extracts the reply text from the provider's document, substituting the
/// fixed fallback when the expected path is missing or not a string.
pub fn extract_content(doc: &serde_json::Value) -> (r: String)
    ensures
        r@ == spec_reply_text(value_model(*doc)),
{
    let extracted: Option<&str> = match value_member(doc, "choices") {
        Some(choices) => match value_element(choices, 0) {
            Some(first) => match value_member(first, "message") {
                Some(message) => match value_member(message, "content") {
                    Some(content) => value_as_str(content),
                    None => None,
                },
                None => None,
            },
            None => None,
        },
        None => None,
    };
    match extracted {
        Some(text) => text.to_owned(),
        None => FALLBACK_MESSAGE.to_owned(),
    }
}

/// Classifies the outcome of the one outbound call and forms the relay's
/// answer: a transport failure is an internal error carrying the transport's
/// description, an upstream rejection is a gateway error with the fixed
/// description, an unparseable upstream body is an internal error, and a
/// parsed body yields the extracted (or fallback) reply text.
pub fn handle_upstream(event: UpstreamEvent) -> (r: Result<ChatResponse, RelayError>)
    ensures
        match event {
            UpstreamEvent::TransportFailure(description) => r matches Err(e) && e.status
                == STATUS_INTERNAL_ERROR && e.message@ == description@,
            UpstreamEvent::Response(status, body) => if !spec_is_success(status) {
                r matches Err(e) && e.status == STATUS_BAD_GATEWAY && e.message@
                    == GATEWAY_ERROR_MESSAGE@
            } else {
                match json_of(body@) {
                    Some(doc) => r matches Ok(reply) && reply.message@ == spec_reply_text(doc),
                    None => r matches Err(e) && e.status == STATUS_INTERNAL_ERROR,
                }
            },
        },
{
    match event {
        UpstreamEvent::TransportFailure(description) => Err(
            RelayError { status: STATUS_INTERNAL_ERROR, message: description },
        ),
        UpstreamEvent::Response(status, body) => {
            if !is_success_status(status) {
                Err(
                    RelayError {
                        status: STATUS_BAD_GATEWAY,
                        message: GATEWAY_ERROR_MESSAGE.to_owned(),
                    },
                )
            } else {
                match parse_json(body.as_str()) {
                    Ok(doc) => Ok(ChatResponse { message: extract_content(&doc) }),
                    Err(description) => Err(
                        RelayError { status: STATUS_INTERNAL_ERROR, message: description },
                    ),
                }
            }
        },
    }
}

/// The user message held in a parsed inbound document: the `message` member,
/// when the document is an object holding it as a string.
pub open spec fn spec_inbound_message(doc: JsonDoc) -> Option<Seq<char>> {
    match doc {
        JsonDoc::Obj(fields) => if fields.contains_key("message"@) {
            match fields["message"@] {
                JsonDoc::Str(text) => Some(text),
                _ => None,
            }
        } else {
            None
        },
        _ => None,
    }
}

/// Parses the client's request body: `Some` exactly when the body is a JSON
/// object whose `message` member is a string.
pub fn parse_chat_request(body: &str) -> (r: Option<ChatRequest>)
    ensures
        match json_of(body@) {
            Some(doc) => match spec_inbound_message(doc) {
                Some(text) => r matches Some(request) && request.message@ == text,
                None => r is None,
            },
            None => r is None,
        },
{
    match parse_json(body) {
        Ok(doc) => match value_member(&doc, "message") {
            Some(member) => match value_as_str(member) {
                Some(text) => Some(ChatRequest { message: text.to_owned() }),
                None => None,
            },
            None => None,
        },
        Err(_) => None,
    }
}

} // verus!
