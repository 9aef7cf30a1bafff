//! The book catalogue with typed errors: list and add books.

use crate::text::{is_blank, spec_is_blank};
use crate::web::{
    is_json_reply, is_message_reply, json_reply, message_reply, Body, DbError, Message, Reply,
    STATUS_BAD_REQUEST, STATUS_CREATED, STATUS_INTERNAL_SERVER_ERROR, STATUS_NOT_FOUND, STATUS_OK,
};
use vstd::prelude::*;

verus! {

/// The failures a handler of this service reports.
#[derive(Debug, Clone, PartialEq, Eq)]
pub enum AppError {
    /// The database failed; its own description.
    DatabaseError(String),
    NotFound,
    /// The request was refused; why.
    BadRequest(String),
}

/// What a handler returns.
pub type AppResponse<T> = Result<T, AppError>;

/// The JSON body of an error reply.
#[derive(Debug, Clone, PartialEq, Eq)]
pub struct ErrorBody {
    pub error: String,
}

impl AppError {
    pub open spec fn spec_status_code(&self) -> u16 {
        match self {
            AppError::DatabaseError(_) => STATUS_INTERNAL_SERVER_ERROR,
            AppError::NotFound => STATUS_NOT_FOUND,
            AppError::BadRequest(_) => STATUS_BAD_REQUEST,
        }
    }

    /// The text the error displays as.
    pub open spec fn spec_message(&self) -> Seq<char> {
        match self {
            AppError::DatabaseError(_) => "Database error"@,
            AppError::NotFound => "Not found"@,
            AppError::BadRequest(why) => why@,
        }
    }

    /// The HTTP status of the error.
    pub fn status_code(&self) -> (status: u16)
        ensures
            status == self.spec_status_code(),
    {
        match self {
            AppError::DatabaseError(_) => STATUS_INTERNAL_SERVER_ERROR,
            AppError::NotFound => STATUS_NOT_FOUND,
            AppError::BadRequest(_) => STATUS_BAD_REQUEST,
        }
    }

    /// The text the error displays as.
    pub fn message(&self) -> (text: String)
        ensures
            text@ == self.spec_message(),
    {
        match self {
            AppError::DatabaseError(_) => "Database error".to_string(),
            AppError::NotFound => "Not found".to_string(),
            AppError::BadRequest(why) => why.clone(),
        }
    }

    /// The reply for the error: its status, and `{"error": <message>}`.
    pub fn error_response(&self) -> (reply: Reply<ErrorBody>)
        ensures
            reply.status == self.spec_status_code(),
            reply.body matches Body::Json(b) && b.error@ == self.spec_message(),
    {
        json_reply(self.status_code(), ErrorBody { error: self.message() })
    }
}

/// The form that adds a book.
#[derive(Debug, Clone, PartialEq, Eq)]
pub struct AddBooks {
    pub name: String,
    pub author: String,
}

/// A book as stored.
#[derive(Debug, Clone, PartialEq, Eq)]
pub struct GetBooks {
    pub id: i32,
    pub name: String,
    pub author: String,
    pub date: String,
}

/// The health check: 200 with `{"status": "ok"}`.
pub fn health() -> (reply: Reply<Message>)
    ensures
        is_message_reply(reply, STATUS_OK, "status"@, "ok"@),
{
    message_reply(STATUS_OK, "status", "ok")
}

/// The reply once the books have been read: 200 with them, or a database
/// error.
pub fn get_books_reply(fetched: Result<Vec<GetBooks>, DbError>) -> (res: AppResponse<
    Reply<Vec<GetBooks>>,
>)
    ensures
        match fetched {
            Ok(books) => (res matches Ok(r) && is_json_reply(r, STATUS_OK, books)),
            Err(e) => (res matches Err(AppError::DatabaseError(m)) && m@ == e.message@),
        },
{
    match fetched {
        Ok(books) => Ok(json_reply(STATUS_OK, books)),
        Err(e) => Err(AppError::DatabaseError(e.message)),
    }
}

/// Adding a book: a name or author that is empty once trimmed is refused
/// before the database is touched.
pub fn add_books_check(payload: &AddBooks) -> (res: AppResponse<()>)
    ensures
        res is Err <==> spec_is_blank(payload.name@) || spec_is_blank(payload.author@),
        res matches Err(e) ==> (e matches AppError::BadRequest(why) && why@
            == "Name and author are required"@),
{
    if is_blank(payload.name.as_str()) || is_blank(payload.author.as_str()) {
        return Err(AppError::BadRequest("Name and author are required".to_string()));
    }
    Ok(())
}

/// The reply once the insert has run: 201 with the stored book, or a
/// database error.
pub fn add_books_reply(inserted: Result<GetBooks, DbError>) -> (res: AppResponse<Reply<GetBooks>>)
    ensures
        match inserted {
            Ok(book) => (res matches Ok(r) && is_json_reply(r, STATUS_CREATED, book)),
            Err(e) => (res matches Err(AppError::DatabaseError(m)) && m@ == e.message@),
        },
{
    match inserted {
        Ok(book) => Ok(json_reply(STATUS_CREATED, book)),
        Err(e) => Err(AppError::DatabaseError(e.message)),
    }
}

} // verus!
