//! The plain values that pass between a request handler and the network or
//! database layer around it.

use vstd::prelude::*;

verus! {

/// HTTP 200 OK.
pub const STATUS_OK: u16 = 200;

/// HTTP 201 Created.
pub const STATUS_CREATED: u16 = 201;

/// HTTP 400 Bad Request.
pub const STATUS_BAD_REQUEST: u16 = 400;

/// HTTP 401 Unauthorized.
pub const STATUS_UNAUTHORIZED: u16 = 401;

/// HTTP 404 Not Found.
pub const STATUS_NOT_FOUND: u16 = 404;

/// HTTP 409 Conflict.
pub const STATUS_CONFLICT: u16 = 409;

/// HTTP 500 Internal Server Error.
pub const STATUS_INTERNAL_SERVER_ERROR: u16 = 500;

/// The body of a reply: a value to be sent as JSON, or plain text.
#[derive(Debug, Clone, PartialEq, Eq)]
pub enum Body<T> {
    Json(T),
    Text(String),
}

/// A reply to send: its status and its body.
#[derive(Debug, Clone, PartialEq, Eq)]
pub struct Reply<T> {
    pub status: u16,
    pub body: Body<T>,
}

/// A JSON object with a single string field, `{ key: value }`.
#[derive(Debug, Clone, PartialEq, Eq)]
pub struct Message {
    pub key: String,
    pub value: String,
}

/// A failed database call, as far as the handlers look into it: whether a
/// unique constraint refused the row, and the database's own description.
#[derive(Debug, Clone, PartialEq, Eq)]
pub struct DbError {
    pub unique_violation: bool,
    pub message: String,
}

/// A user row ready to be inserted: the password is already hashed.
#[derive(Debug, Clone, PartialEq, Eq)]
pub struct NewUser {
    pub name: String,
    pub email: String,
    pub pass: String,
}

/// `reply` has the given status and a JSON body.
pub open spec fn is_json_reply<T>(reply: Reply<T>, status: u16, value: T) -> bool {
    reply.status == status && reply.body == Body::Json(value)
}

/// `reply` has the given status and the given plain-text body.
pub open spec fn is_text_reply<T>(reply: Reply<T>, status: u16, text: Seq<char>) -> bool {
    &&& reply.status == status
    &&& reply.body matches Body::Text(t) && t@ == text
}

/// `reply` has the given status and the JSON body `{ key: value }`.
pub open spec fn is_message_reply(reply: Reply<Message>, status: u16, key: Seq<char>, value: Seq<char>) -> bool {
    &&& reply.status == status
    &&& reply.body matches Body::Json(m) && m.key@ == key && m.value@ == value
}

/// A reply with the given status and a JSON body.
pub fn json_reply<T>(status: u16, value: T) -> (reply: Reply<T>)
    ensures
        is_json_reply(reply, status, value),
{
    Reply { status, body: Body::Json(value) }
}

/// A reply with the given status and a plain-text body.
pub fn text_reply<T>(status: u16, text: &str) -> (reply: Reply<T>)
    ensures
        is_text_reply(reply, status, text@),
{
    Reply { status, body: Body::Text(text.to_string()) }
}

/// A reply with the given status and the JSON body `{ key: value }`.
pub fn message_reply(status: u16, key: &str, value: &str) -> (reply: Reply<Message>)
    ensures
        is_message_reply(reply, status, key@, value@),
{
    Reply { status, body: Body::Json(Message { key: key.to_string(), value: value.to_string() }) }
}

} // verus!
