//! The account service in development: its errors and its user record.

use crate::clock::{in_calendar, local_at_offset, since_epoch, timestamp_of, EpochOffset};
use crate::web::{
    is_message_reply, json_reply, message_reply, Body, Message, Reply, STATUS_BAD_REQUEST,
    STATUS_INTERNAL_SERVER_ERROR, STATUS_NOT_FOUND, STATUS_OK, STATUS_UNAUTHORIZED,
};
use vstd::prelude::*;

verus! {

/// The failures a handler of this service reports.
#[derive(Debug, Clone, PartialEq, Eq)]
pub enum AppError {
    /// Something underneath failed; the failure's own description.
    InternalServerError(String),
    NotFound,
    BadRequest,
    Unauthorized,
}

/// The JSON body of an error reply.
#[derive(Debug, Clone, PartialEq, Eq)]
pub struct ErrorBody {
    pub error: String,
}

impl AppError {
    pub open spec fn spec_status_code(&self) -> u16 {
        match self {
            AppError::InternalServerError(_) => STATUS_INTERNAL_SERVER_ERROR,
            AppError::BadRequest => STATUS_BAD_REQUEST,
            AppError::Unauthorized => STATUS_UNAUTHORIZED,
            AppError::NotFound => STATUS_NOT_FOUND,
        }
    }

    /// The text the error displays as.
    pub open spec fn spec_message(&self) -> Seq<char> {
        match self {
            AppError::InternalServerError(_) => "Internal server error"@,
            AppError::NotFound => "Not found in the scope"@,
            AppError::BadRequest => "Invalid credentials"@,
            AppError::Unauthorized => "Unauthorized"@,
        }
    }

    /// The HTTP status of the error.
    pub fn status_code(&self) -> (status: u16)
        ensures
            status == self.spec_status_code(),
    {
        match self {
            AppError::InternalServerError(_) => STATUS_INTERNAL_SERVER_ERROR,
            AppError::BadRequest => STATUS_BAD_REQUEST,
            AppError::Unauthorized => STATUS_UNAUTHORIZED,
            AppError::NotFound => STATUS_NOT_FOUND,
        }
    }

    /// The text the error displays as.
    pub fn message(&self) -> (text: String)
        ensures
            text@ == self.spec_message(),
    {
        match self {
            AppError::InternalServerError(_) => "Internal server error".to_string(),
            AppError::NotFound => "Not found in the scope".to_string(),
            AppError::BadRequest => "Invalid credentials".to_string(),
            AppError::Unauthorized => "Unauthorized".to_string(),
        }
    }

    /// The reply for the error: its status, and `{"error": <message>}`.
    pub fn error_response(&self) -> (reply: Reply<ErrorBody>)
        ensures
            reply.status == self.spec_status_code(),
            reply.body matches Body::Json(b) && b.error@ == self.spec_message(),
    {
        json_reply(self.status_code(), ErrorBody { error: self.message() })
    }
}

/// A user account.
#[derive(Debug, PartialEq, Eq)]
pub struct User {
    pub email: String,
    pub hash: String,
    pub created_at: chrono::NaiveDateTime,
}

impl User {
    /// A new account with the given email and password hash, created at the
    /// given clock reading (local time); `None` exactly where the reading's
    /// timestamp lies outside `in_calendar`.
    pub fn from_details_at<S: Into<String>, T: Into<String>>(email: S, pwd: T, clock: EpochOffset) -> (user: Option<Self>)
        ensures
            user is Some <==> (timestamp_of(clock) matches Some((secs, _)) && in_calendar(secs)),
            user matches Some(u) ==> call_ensures(S::into, (email,), u.email) && call_ensures(
                T::into,
                (pwd,),
                u.hash,
            ),
    {
        let email = email.into();
        let hash = pwd.into();
        match local_at_offset(clock) {
            Some(created_at) => Some(User { email, hash, created_at }),
            None => None,
        }
    }

    /// A new account with the given email and password hash, created now
    /// (local time); `None` where the clock reads outside `in_calendar`.
    pub fn from_details<S: Into<String>, T: Into<String>>(email: S, pwd: T) -> (user: Option<Self>)
        ensures
            user matches Some(u) ==> call_ensures(S::into, (email,), u.email) && call_ensures(
                T::into,
                (pwd,),
                u.hash,
            ),
    {
        User::from_details_at(email, pwd, since_epoch())
    }
}

/// The health check: 200 with `{"Ok": "Status is green"}`.
pub fn health() -> (reply: Reply<Message>)
    ensures
        is_message_reply(reply, STATUS_OK, "Ok"@, "Status is green"@),
{
    message_reply(STATUS_OK, "Ok", "Status is green")
}

} // verus!
