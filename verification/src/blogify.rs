//! The blog service with sign-up: its errors, password helpers and the
//! sign-up decisions around the database insert.

use crate::password::{
    argon2_check, argon2_hash, argon2_phc, argon2_verdict, fits_argon2, generate_salt,
    is_argon2_hash, is_hash_of, lemma_salted_prefix, phc_parses, phc_prefix, PasswordCheck,
};
use crate::text::starts_with;
use crate::web::{
    is_json_reply, is_message_reply, json_reply, message_reply, Body, DbError, Message, NewUser,
    Reply, STATUS_BAD_REQUEST, STATUS_CREATED, STATUS_INTERNAL_SERVER_ERROR, STATUS_NOT_FOUND,
    STATUS_OK,
};
use vstd::prelude::*;
use vstd::utf8::encode_utf8;

verus! {

/// The failures a handler of this service reports.
#[derive(Debug, Clone, PartialEq, Eq)]
pub enum AppError {
    /// Something underneath failed; the failure's own description.
    InternalError(String),
    NotFound,
    BadRequest,
}

/// What a handler returns.
pub type AppResponse<T> = Result<T, AppError>;

/// The JSON body of an error reply.
#[derive(Debug, Clone, PartialEq, Eq)]
pub struct ErrorBody {
    pub error: String,
}

impl AppError {
    pub open spec fn spec_status_code(&self) -> u16 {
        match self {
            AppError::InternalError(_) => STATUS_INTERNAL_SERVER_ERROR,
            AppError::NotFound => STATUS_NOT_FOUND,
            AppError::BadRequest => STATUS_BAD_REQUEST,
        }
    }

    /// The text the error displays as.
    pub open spec fn spec_message(&self) -> Seq<char> {
        match self {
            AppError::InternalError(_) => "Internal server error "@,
            AppError::NotFound => "Not found "@,
            AppError::BadRequest => "Inavalid input"@,
        }
    }

    /// The HTTP status of the error.
    pub fn status_code(&self) -> (status: u16)
        ensures
            status == self.spec_status_code(),
    {
        match self {
            AppError::InternalError(_) => STATUS_INTERNAL_SERVER_ERROR,
            AppError::NotFound => STATUS_NOT_FOUND,
            AppError::BadRequest => STATUS_BAD_REQUEST,
        }
    }

    /// The text the error displays as.
    pub fn message(&self) -> (text: String)
        ensures
            text@ == self.spec_message(),
    {
        match self {
            AppError::InternalError(_) => "Internal server error ".to_string(),
            AppError::NotFound => "Not found ".to_string(),
            AppError::BadRequest => "Inavalid input".to_string(),
        }
    }

    /// The reply for the error: its status, and `{"error": <message>}`.
    pub fn error_response(&self) -> (reply: Reply<ErrorBody>)
        ensures
            reply.status == self.spec_status_code(),
            reply.body matches Body::Json(b) && b.error@ == self.spec_message(),
    {
        json_reply(self.status_code(), ErrorBody { error: self.message() })
    }
}

/// An internal error whose description is `text`.
pub open spec fn is_internal(e: AppError, text: Seq<char>) -> bool {
    e matches AppError::InternalError(m) && m@ == text
}

/// The sign-up form.
#[derive(Debug, Clone, PartialEq, Eq)]
pub struct SignUp {
    pub name: String,
    pub email: String,
    pub password: String,
}

/// The login form.
#[derive(Debug, Clone, PartialEq, Eq)]
pub struct Login {
    pub email: String,
    pub password: String,
}

/// What sign-up sends back of the new user.
#[derive(Debug, Clone, PartialEq, Eq)]
pub struct Show {
    pub name: String,
    pub email: String,
}

/// What a hashing step answers: the hash as it came, or an internal error
/// "Hashing failed" whatever the reason.
pub fn hashing_outcome(hashed: Result<String, String>) -> (res: AppResponse<String>)
    ensures
        match hashed {
            Ok(h) => (res matches Ok(r) && r@ == h@),
            Err(_) => (res matches Err(e) && is_internal(e, "Hashing failed"@)),
        },
{
    match hashed {
        Ok(h) => Ok(h),
        Err(_) => Err(AppError::InternalError("Hashing failed".to_string())),
    }
}

/// Hashes `password` with the given B64 salt.
pub fn hash_password_with_salt(password: &str, salt: &str) -> (res: AppResponse<String>)
    ensures
        match argon2_phc(encode_utf8(password@), salt@) {
            Ok(h) => (res matches Ok(r) && r@ == h),
            Err(_) => (res matches Err(e) && is_internal(e, "Hashing failed"@)),
        },
        res matches Ok(h) ==> phc_parses(h@) && starts_with(h@, phc_prefix() + salt@ + "$"@),
{
    hashing_outcome(argon2_hash(password.as_bytes(), salt))
}

/// Hashes `password` with a freshly drawn random salt. Every password
/// Argon2 takes (at most `u32::MAX` bytes) is hashed; only a password it
/// refuses gives "Hashing failed".
pub fn hash_password(password: &str) -> (res: AppResponse<String>)
    ensures
        fits_argon2(encode_utf8(password@)) ==> res is Ok,
        res matches Ok(h) ==> is_hash_of(encode_utf8(password@), h@) && phc_parses(h@)
            && starts_with(h@, phc_prefix()),
        res matches Err(e) ==> is_internal(e, "Hashing failed"@),
        res matches Err(_) ==> !fits_argon2(encode_utf8(password@)),
{
    let salt = generate_salt();
    let res = hash_password_with_salt(password, salt.as_str());
    proof {
        if res is Ok {
            lemma_salted_prefix(res->Ok_0@, salt@);
        }
    }
    res
}

/// What a password check answers: `Ok(true)` on a match, `Ok(false)` on a
/// mismatch, an internal error "Wrong hash is there " when the stored string
/// is no PHC hash, and "Failed to verify the pass" when the hash could not be
/// recomputed.
pub fn verify_outcome(check: PasswordCheck) -> (res: AppResponse<bool>)
    ensures
        match check {
            PasswordCheck::Match => res == Ok::<bool, AppError>(true),
            PasswordCheck::Mismatch => res == Ok::<bool, AppError>(false),
            PasswordCheck::Malformed(_) => (res matches Err(e) && is_internal(
                e,
                "Wrong hash is there "@,
            )),
            PasswordCheck::Failed(_) => (res matches Err(e) && is_internal(
                e,
                "Failed to verify the pass"@,
            )),
        },
{
    match check {
        PasswordCheck::Malformed(_) => Err(AppError::InternalError("Wrong hash is there ".to_string())),
        PasswordCheck::Match => Ok(true),
        PasswordCheck::Mismatch => Ok(false),
        PasswordCheck::Failed(_) => Err(AppError::InternalError("Failed to verify the pass".to_string())),
    }
}

/// Checks `password` against a stored hash: `Ok(true)` when it matches,
/// `Ok(false)` when it does not, an internal error when the stored string is
/// no PHC hash or the hash cannot be recomputed.
pub fn verify_password(password: &str, hash: &str) -> (res: AppResponse<bool>)
    ensures
        !phc_parses(hash@) ==> (res matches Err(e) && is_internal(e, "Wrong hash is there "@)),
        phc_parses(hash@) ==> match argon2_verdict(encode_utf8(password@), hash@) {
            Some(ok) => res == Ok::<bool, AppError>(ok),
            None => (res matches Err(e) && is_internal(e, "Failed to verify the pass"@)),
        },
        is_hash_of(encode_utf8(password@), hash@) ==> res == Ok::<bool, AppError>(true),
        is_argon2_hash(hash@) && fits_argon2(encode_utf8(password@)) ==> res is Ok,
{
    verify_outcome(argon2_check(password.as_bytes(), hash))
}

/// The row that sign-up inserts: the name and email as given and the hashed
/// password.
pub fn signup_row(payload: &SignUp) -> (res: AppResponse<NewUser>)
    ensures
        res matches Ok(u) ==> {
            &&& u.name@ == payload.name@
            &&& u.email@ == payload.email@
            &&& is_hash_of(encode_utf8(payload.password@), u.pass@)
            &&& phc_parses(u.pass@)
            &&& starts_with(u.pass@, phc_prefix())
        },
        res matches Err(e) ==> is_internal(e, "Hashing failed"@),
        fits_argon2(encode_utf8(payload.password@)) ==> res is Ok,
        res matches Err(_) ==> !fits_argon2(encode_utf8(payload.password@)),
{
    let pass = hash_password(payload.password.as_str())?;
    Ok(NewUser { name: payload.name.clone(), email: payload.email.clone(), pass })
}

/// The sign-up reply once the insert has run: 201 with the new user, or an
/// internal error when the database refused.
pub fn signup_reply(inserted: Result<Show, DbError>) -> (res: AppResponse<Reply<Show>>)
    ensures
        match inserted {
            Ok(show) => (res matches Ok(r) && is_json_reply(r, STATUS_CREATED, show)),
            Err(_) => (res matches Err(e) && is_internal(e, "Database error"@)),
        },
{
    match inserted {
        Ok(show) => Ok(json_reply(STATUS_CREATED, show)),
        Err(_) => Err(AppError::InternalError("Database error".to_string())),
    }
}

/// The health check: 200 with `{"Status": "ok"}`.
pub fn health() -> (res: AppResponse<Reply<Message>>)
    ensures
        res matches Ok(r) && is_message_reply(r, STATUS_OK, "Status"@, "ok"@),
{
    Ok(message_reply(STATUS_OK, "Status", "ok"))
}

} // verus!
