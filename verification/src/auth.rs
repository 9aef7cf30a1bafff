//! The account service: its errors, password hashing and the registration
//! decisions around the database insert.

use crate::password::{
    argon2_hash, argon2_phc, fits_argon2, generate_salt, is_hash_of, lemma_salted_prefix,
    phc_parses, phc_prefix,
};
use crate::text::starts_with;
use crate::web::{
    is_message_reply, is_text_reply, message_reply, text_reply, DbError, Message, NewUser, Reply,
    STATUS_BAD_REQUEST, STATUS_CREATED, STATUS_INTERNAL_SERVER_ERROR, STATUS_NOT_FOUND, STATUS_OK,
    STATUS_UNAUTHORIZED,
};
use vstd::prelude::*;
use vstd::utf8::encode_utf8;

verus! {

/// The failures a handler of this service reports.
#[derive(Debug, Clone, PartialEq, Eq)]
pub enum AppError {
    /// Something underneath failed; the failure's own description.
    InternalError(String),
    NotFound,
    Unauthorized,
    /// The request cannot be served as it stands (an email already taken).
    BadRequest,
}

/// What a handler returns.
pub type AppResponse<T> = Result<T, AppError>;

/// The JSON shape of an error message.
#[derive(Debug, Clone, PartialEq, Eq)]
pub struct ErrorBody {
    pub error: String,
}

impl AppError {
    pub open spec fn spec_status_code(&self) -> u16 {
        match self {
            AppError::InternalError(_) => STATUS_INTERNAL_SERVER_ERROR,
            AppError::NotFound => STATUS_NOT_FOUND,
            AppError::Unauthorized => STATUS_UNAUTHORIZED,
            AppError::BadRequest => STATUS_BAD_REQUEST,
        }
    }

    /// The text the error displays as.
    pub open spec fn spec_message(&self) -> Seq<char> {
        match self {
            AppError::InternalError(_) => "Internal server error"@,
            AppError::NotFound => "Not found"@,
            AppError::Unauthorized => "Unauthorized"@,
            AppError::BadRequest => "Invalid credentials"@,
        }
    }

    /// The HTTP status of the error.
    pub fn status_code(&self) -> (status: u16)
        ensures
            status == self.spec_status_code(),
    {
        match self {
            AppError::InternalError(_) => STATUS_INTERNAL_SERVER_ERROR,
            AppError::NotFound => STATUS_NOT_FOUND,
            AppError::Unauthorized => STATUS_UNAUTHORIZED,
            AppError::BadRequest => STATUS_BAD_REQUEST,
        }
    }

    /// The text the error displays as.
    pub fn message(&self) -> (text: String)
        ensures
            text@ == self.spec_message(),
    {
        match self {
            AppError::InternalError(_) => "Internal server error".to_string(),
            AppError::NotFound => "Not found".to_string(),
            AppError::Unauthorized => "Unauthorized".to_string(),
            AppError::BadRequest => "Invalid credentials".to_string(),
        }
    }

    /// The reply for the error: its status and its message as plain text.
    pub fn error_response(&self) -> (reply: Reply<()>)
        ensures
            is_text_reply(reply, self.spec_status_code(), self.spec_message()),
    {
        let text = self.message();
        text_reply(self.status_code(), text.as_str())
    }
}

/// How a failed hash is reported: "Password hashing failed dude " and the
/// hasher's reason.
pub open spec fn hashing_failure_text(why: Seq<char>) -> Seq<char> {
    "Password hashing failed dude "@ + why
}

/// `e` reports a failed hashing step: the prefix and some reason.
pub open spec fn is_hashing_report(e: AppError) -> bool {
    exists|why: Seq<char>| is_internal(e, #[trigger] hashing_failure_text(why))
}

/// `e` reports that Argon2 refused `password`: the prefix and the reason
/// hashing it with some salt gave.
pub open spec fn is_refusal_report(e: AppError, password: Seq<u8>) -> bool {
    exists|salt: Seq<char>| #[trigger] argon2_phc(password, salt) is Err && is_internal(
        e,
        hashing_failure_text(argon2_phc(password, salt)->Err_0),
    )
}

/// An internal error whose description is `text`.
pub open spec fn is_internal(e: AppError, text: Seq<char>) -> bool {
    e matches AppError::InternalError(m) && m@ == text
}

/// The registration form.
#[derive(Debug, Clone, PartialEq, Eq)]
pub struct Register {
    pub name: String,
    pub email: String,
    pub pwd: String,
}

/// The login form.
#[derive(Debug, Clone, PartialEq, Eq)]
pub struct Login {
    pub email: String,
    pub pwd: String,
}

/// What a hashing step answers: the hash as it came, or an internal error
/// "Password hashing failed dude <reason>".
pub fn hashing_outcome(hashed: Result<String, String>) -> (res: AppResponse<String>)
    ensures
        match hashed {
            Ok(h) => (res matches Ok(r) && r@ == h@),
            Err(why) => (res matches Err(e) && is_internal(e, hashing_failure_text(why@))),
        },
{
    match hashed {
        Ok(h) => Ok(h),
        Err(reason) => {
            let text = "Password hashing failed dude ".to_string().concat(reason.as_str());
            Err(AppError::InternalError(text))
        },
    }
}

/// Hashes `password` with the given B64 salt; a failure is reported as an
/// internal error "Password hashing failed dude <reason>".
pub fn hash_password_with_salt(password: &str, salt: &str) -> (res: AppResponse<String>)
    ensures
        match argon2_phc(encode_utf8(password@), salt@) {
            Ok(h) => (res matches Ok(r) && r@ == h),
            Err(why) => (res matches Err(e) && is_internal(e, hashing_failure_text(why))),
        },
        res matches Ok(h) ==> phc_parses(h@) && starts_with(h@, phc_prefix() + salt@ + "$"@),
{
    hashing_outcome(argon2_hash(password.as_bytes(), salt))
}

/// Hashes `password` with a freshly drawn random salt. Every password
/// Argon2 takes (at most `u32::MAX` bytes) is hashed; a password it refuses
/// is reported with Argon2's reason.
pub fn hash_password(password: &str) -> (res: AppResponse<String>)
    ensures
        fits_argon2(encode_utf8(password@)) ==> res is Ok,
        res matches Ok(h) ==> is_hash_of(encode_utf8(password@), h@) && phc_parses(h@)
            && starts_with(h@, phc_prefix()),
        res matches Err(e) ==> is_hashing_report(e),
        res matches Err(e) ==> !fits_argon2(encode_utf8(password@)) && is_refusal_report(
            e,
            encode_utf8(password@),
        ),
{
    let salt = generate_salt();
    let res = hash_password_with_salt(password, salt.as_str());
    proof {
        if res is Ok {
            lemma_salted_prefix(res->Ok_0@, salt@);
        }
    }
    res
}

/// The row that registration inserts: the name and email as given and the
/// hashed password.
pub fn register_row(payload: &Register) -> (res: AppResponse<NewUser>)
    ensures
        res matches Ok(u) ==> {
            &&& u.name@ == payload.name@
            &&& u.email@ == payload.email@
            &&& is_hash_of(encode_utf8(payload.pwd@), u.pass@)
            &&& phc_parses(u.pass@)
            &&& starts_with(u.pass@, phc_prefix())
        },
        res matches Err(e) ==> is_hashing_report(e),
        fits_argon2(encode_utf8(payload.pwd@)) ==> res is Ok,
        res matches Err(e) ==> !fits_argon2(encode_utf8(payload.pwd@)) && is_refusal_report(
            e,
            encode_utf8(payload.pwd@),
        ),
{
    let pass = hash_password(payload.pwd.as_str())?;
    Ok(NewUser { name: payload.name.clone(), email: payload.email.clone(), pass })
}

/// The registration reply once the insert has run: 201 with
/// `{"message": "User created successfully"}`; a taken email (a unique
/// violation) is a bad request; any other database failure is internal.
pub fn register_reply(inserted: Result<(), DbError>) -> (res: AppResponse<Reply<Message>>)
    ensures
        match inserted {
            Ok(()) => (res matches Ok(r) && is_message_reply(
                r,
                STATUS_CREATED,
                "message"@,
                "User created successfully"@,
            )),
            Err(e) => if e.unique_violation {
                res == Err::<Reply<Message>, AppError>(AppError::BadRequest)
            } else {
                res matches Err(err) && is_internal(err, e.message@)
            },
        },
{
    match inserted {
        Ok(()) => Ok(message_reply(STATUS_CREATED, "message", "User created successfully")),
        Err(e) => {
            if e.unique_violation {
                Err(AppError::BadRequest)
            } else {
                Err(AppError::InternalError(e.message))
            }
        },
    }
}

/// The health check: 200 with `{"Ok": "Status is good "}`.
pub fn health() -> (reply: Reply<Message>)
    ensures
        is_message_reply(reply, STATUS_OK, "Ok"@, "Status is good "@),
{
    message_reply(STATUS_OK, "Ok", "Status is good ")
}

} // verus!
