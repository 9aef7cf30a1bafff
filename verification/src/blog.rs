//! The blog service: its errors, the registration flow (look the email up,
//! hash the password, insert the user) and the checks on the
//! `Authorization` header.

use crate::password::{
    argon2_hash, argon2_phc, fits_argon2, generate_salt, is_hash_of, lemma_salted_prefix,
    phc_parses, phc_prefix,
};
use crate::text::starts_with;
use crate::web::{
    is_message_reply, is_text_reply, json_reply, message_reply, text_reply, Body, DbError,
    Message, NewUser, Reply, STATUS_CONFLICT, STATUS_CREATED, STATUS_INTERNAL_SERVER_ERROR,
    STATUS_NOT_FOUND, STATUS_OK, STATUS_UNAUTHORIZED,
};
use vstd::prelude::*;
use vstd::utf8::{
    codepoint_width_1, decode_first_codepoint, encode_utf8, pop_first_scalar, valid_utf8,
};

verus! {

/// The failures a handler of this service reports.
#[derive(Debug, Clone, PartialEq, Eq)]
pub enum AppError {
    /// Something underneath failed; the failure's own description.
    InternalServerError(String),
    NotFound,
    Unauthorized,
    AlreadyExist,
    NotExist,
}

/// What a handler returns.
pub type AppResponse<T> = Result<T, AppError>;

/// The JSON body of an error reply.
#[derive(Debug, Clone, PartialEq, Eq)]
pub struct ErrorBody {
    pub error: String,
}

impl AppError {
    pub open spec fn spec_status_code(&self) -> u16 {
        match self {
            AppError::InternalServerError(_) => STATUS_INTERNAL_SERVER_ERROR,
            AppError::NotFound => STATUS_NOT_FOUND,
            AppError::Unauthorized => STATUS_UNAUTHORIZED,
            AppError::AlreadyExist => STATUS_CONFLICT,
            AppError::NotExist => STATUS_NOT_FOUND,
        }
    }

    /// The text the error displays as.
    pub open spec fn spec_message(&self) -> Seq<char> {
        match self {
            AppError::InternalServerError(_) => "Internal server error"@,
            AppError::NotFound => "Not found"@,
            AppError::Unauthorized => "Unauthorized"@,
            AppError::AlreadyExist => "Already exist"@,
            AppError::NotExist => "Does not exist "@,
        }
    }

    /// The HTTP status of the error.
    pub fn status_code(&self) -> (status: u16)
        ensures
            status == self.spec_status_code(),
    {
        match self {
            AppError::InternalServerError(_) => STATUS_INTERNAL_SERVER_ERROR,
            AppError::NotFound => STATUS_NOT_FOUND,
            AppError::Unauthorized => STATUS_UNAUTHORIZED,
            AppError::AlreadyExist => STATUS_CONFLICT,
            AppError::NotExist => STATUS_NOT_FOUND,
        }
    }

    /// The text the error displays as.
    pub fn message(&self) -> (text: String)
        ensures
            text@ == self.spec_message(),
    {
        match self {
            AppError::InternalServerError(_) => "Internal server error".to_string(),
            AppError::NotFound => "Not found".to_string(),
            AppError::Unauthorized => "Unauthorized".to_string(),
            AppError::AlreadyExist => "Already exist".to_string(),
            AppError::NotExist => "Does not exist ".to_string(),
        }
    }

    /// The reply for the error: its status, and `{"error": <message>}`.
    pub fn error_response(&self) -> (reply: Reply<ErrorBody>)
        ensures
            reply.status == self.spec_status_code(),
            reply.body matches Body::Json(b) && b.error@ == self.spec_message(),
    {
        json_reply(self.status_code(), ErrorBody { error: self.message() })
    }
}

/// An internal error whose description is `text`.
pub open spec fn is_internal(e: AppError, text: Seq<char>) -> bool {
    e matches AppError::InternalServerError(m) && m@ == text
}

/// How a failed hash is reported: "Could not hash the password : " and the
/// hasher's reason.
pub open spec fn hashing_failure_text(why: Seq<char>) -> Seq<char> {
    "Could not hash the password : "@ + why
}

/// `e` reports a failed hashing step: the prefix and some reason.
pub open spec fn is_hashing_report(e: AppError) -> bool {
    exists|why: Seq<char>| is_internal(e, #[trigger] hashing_failure_text(why))
}

/// `e` reports that Argon2 refused `password`: the prefix and the reason
/// hashing it with some salt gave.
pub open spec fn is_refusal_report(e: AppError, password: Seq<u8>) -> bool {
    exists|salt: Seq<char>| #[trigger] argon2_phc(password, salt) is Err && is_internal(
        e,
        hashing_failure_text(argon2_phc(password, salt)->Err_0),
    )
}

/// The registration form.
#[derive(Debug, Clone, PartialEq, Eq)]
pub struct Register {
    pub name: String,
    pub email: String,
    pub password: String,
}

/// The login form.
#[derive(Debug, Clone, PartialEq, Eq)]
pub struct Login {
    pub email: String,
    pub password: String,
}

/// The next thing a registration asks of the database, or its answer.
#[derive(Debug, PartialEq, Eq)]
pub enum RegisterStep {
    /// Look for a user with this email; report whether one exists.
    LookupEmail(String),
    /// Insert this user; report whether the insert went through.
    Insert(NewUser),
    /// Answer the request with this.
    Finish(AppResponse<Reply<Message>>),
}

/// A registration starts by looking the email up.
pub fn register_begin(payload: &Register) -> (step: RegisterStep)
    ensures
        step matches RegisterStep::LookupEmail(email) && email@ == payload.email@,
{
    RegisterStep::LookupEmail(payload.email.clone())
}

/// What registration does with the outcome of hashing the password: insert
/// the user with the name and email as given and the hash as it came, or
/// answer with an internal error "Could not hash the password : <reason>".
pub fn register_insert_step(payload: &Register, hashed: Result<String, String>) -> (step:
    RegisterStep)
    ensures
        match hashed {
            Ok(h) => (step matches RegisterStep::Insert(u) && u.name@ == payload.name@
                && u.email@ == payload.email@ && u.pass@ == h@),
            Err(why) => (step matches RegisterStep::Finish(Err(e)) && is_internal(
                e,
                hashing_failure_text(why@),
            )),
        },
{
    match hashed {
        Ok(pass) => RegisterStep::Insert(
            NewUser { name: payload.name.clone(), email: payload.email.clone(), pass },
        ),
        Err(reason) => {
            let text = "Could not hash the password : ".to_string().concat(reason.as_str());
            RegisterStep::Finish(Err(AppError::InternalServerError(text)))
        },
    }
}

/// What registration does once the email lookup has run, the password being
/// hashed with the given salt: a failed lookup is internal, a taken email is
/// a conflict, and otherwise the user is inserted with the hashed password,
/// unless hashing fails.
pub fn register_after_lookup_with_salt(
    payload: &Register,
    found: Result<bool, DbError>,
    salt: &str,
) -> (step: RegisterStep)
    ensures
        match found {
            Err(_) => (step matches RegisterStep::Finish(Err(e)) && is_internal(
                e,
                "Could not fetch the users from the database"@,
            )),
            Ok(true) => step == RegisterStep::Finish(
                Err::<Reply<Message>, AppError>(AppError::AlreadyExist),
            ),
            Ok(false) => match argon2_phc(encode_utf8(payload.password@), salt@) {
                Ok(h) => (step matches RegisterStep::Insert(u) && u.name@ == payload.name@
                    && u.email@ == payload.email@ && u.pass@ == h && phc_parses(h)
                    && starts_with(h, phc_prefix() + salt@ + "$"@)),
                Err(why) => (step matches RegisterStep::Finish(Err(e)) && is_internal(
                    e,
                    hashing_failure_text(why),
                )),
            },
        },
{
    match found {
        Err(_) => RegisterStep::Finish(
            Err(AppError::InternalServerError("Could not fetch the users from the database".to_string())),
        ),
        Ok(true) => RegisterStep::Finish(Err(AppError::AlreadyExist)),
        Ok(false) => register_insert_step(
            payload,
            argon2_hash(payload.password.as_str().as_bytes(), salt),
        ),
    }
}

/// What registration does once the email lookup has run, with a freshly
/// drawn random salt for the password (drawn only when the email is free).
/// A free email is always inserted for a password Argon2 takes (at most
/// `u32::MAX` bytes); only a password it refuses ends in an internal error
/// with Argon2's reason.
pub fn register_after_lookup(payload: &Register, found: Result<bool, DbError>) -> (step:
    RegisterStep)
    ensures
        match found {
            Err(_) => (step matches RegisterStep::Finish(Err(e)) && is_internal(
                e,
                "Could not fetch the users from the database"@,
            )),
            Ok(true) => step == RegisterStep::Finish(
                Err::<Reply<Message>, AppError>(AppError::AlreadyExist),
            ),
            Ok(false) => {
                ||| (step matches RegisterStep::Insert(u) && u.name@ == payload.name@ && u.email@
                    == payload.email@ && is_hash_of(encode_utf8(payload.password@), u.pass@)
                    && phc_parses(u.pass@) && starts_with(u.pass@, phc_prefix()))
                ||| (step matches RegisterStep::Finish(Err(e)) && is_hashing_report(e))
            },
        },
        (found matches Ok(false)) && fits_argon2(encode_utf8(payload.password@)) ==> step is Insert,
        (found matches Ok(false)) && step is Finish ==> !fits_argon2(encode_utf8(payload.password@))
            && (step matches RegisterStep::Finish(Err(e)) && is_refusal_report(
            e,
            encode_utf8(payload.password@),
        )),
{
    match found {
        Err(_) => RegisterStep::Finish(
            Err(AppError::InternalServerError("Could not fetch the users from the database".to_string())),
        ),
        Ok(true) => RegisterStep::Finish(Err(AppError::AlreadyExist)),
        Ok(false) => {
            let salt = generate_salt();
            let step = register_after_lookup_with_salt(payload, Ok(false), salt.as_str());
            proof {
                if step is Insert {
                    lemma_salted_prefix(step->Insert_0.pass@, salt@);
                }
            }
            step
        },
    }
}

/// What registration answers once the insert has run: 201 with
/// `{"OK": "User is created successfully"}`, or an internal error.
pub fn register_after_insert(inserted: Result<(), DbError>) -> (step: RegisterStep)
    ensures
        match inserted {
            Ok(()) => (step matches RegisterStep::Finish(Ok(r)) && is_message_reply(
                r,
                STATUS_CREATED,
                "OK"@,
                "User is created successfully"@,
            )),
            Err(_) => (step matches RegisterStep::Finish(Err(e)) && is_internal(
                e,
                "Could not isert user into the database"@,
            )),
        },
{
    match inserted {
        Ok(()) => RegisterStep::Finish(
            Ok(message_reply(STATUS_CREATED, "OK", "User is created successfully")),
        ),
        Err(_) => RegisterStep::Finish(
            Err(AppError::InternalServerError("Could not isert user into the database".to_string())),
        ),
    }
}

/// The health check: 200 with `{"Ok": "Status is ok "}`.
pub fn health() -> (reply: Reply<Message>)
    ensures
        is_message_reply(reply, STATUS_OK, "Ok"@, "Status is ok "@),
{
    message_reply(STATUS_OK, "Ok", "Status is ok ")
}

/// The user a request is made on behalf of.
#[derive(Debug, Clone, Copy, PartialEq, Eq)]
pub struct AuthUser {
    /// The user's UUID, as its 128-bit value.
    pub user_id: u128,
}

/// A byte that an HTTP header value may hold as text: visible ASCII or a tab.
pub open spec fn is_visible_ascii(b: u8) -> bool {
    (32 <= b && b < 127) || b == 9
}

/// Every byte of the header value is visible ASCII or a tab.
pub open spec fn all_visible_ascii(bytes: Seq<u8>) -> bool {
    forall|i: int| 0 <= i < bytes.len() ==> #[trigger] is_visible_ascii(bytes[i])
}

/// Bytes below 0x80 are valid UTF-8.
proof fn lemma_ascii_is_utf8(bytes: Seq<u8>)
    requires
        forall|i: int| 0 <= i < bytes.len() ==> #[trigger] bytes[i] < 0x80,
    ensures
        valid_utf8(bytes),
    decreases bytes.len(),
{
    if bytes.len() > 0 {
        let b = bytes[0];
        assert(b < 0x80);
        assert((b & 0x7f) as u32 == b as u32) by (bit_vector)
            requires
                b < 0x80,
        ;
        assert(codepoint_width_1(b) == b as u32);
        assert(decode_first_codepoint(bytes) == b as u32);
        assert(pop_first_scalar(bytes) =~= bytes.drop_first());
        lemma_ascii_is_utf8(bytes.drop_first());
    }
}

/// Calls `std::str::from_utf8`. Claimed, as its documentation says: it
/// succeeds exactly on valid UTF-8, and the text it returns is the one those
/// bytes encode.
#[verifier::external_body]
fn utf8_text(bytes: &[u8]) -> (res: Option<&str>)
    ensures
        res is Some <==> valid_utf8(bytes@),
        res matches Some(s) ==> encode_utf8(s@) == bytes@,
{
    match std::str::from_utf8(bytes) {
        Ok(s) => Some(s),
        Err(_) => None,
    }
}

impl AuthUser {
    /// The checks the extractor makes on the `Authorization` header: a
    /// missing header and one that is not visible ASCII text are refused
    /// with 401; otherwise the header's text.
    pub fn authorization(header: Option<&[u8]>) -> (res: Result<String, Reply<()>>)
        ensures
            match header {
                None => (res matches Err(r) && is_text_reply(
                    r,
                    STATUS_UNAUTHORIZED,
                    "Missing authorization headers"@,
                )),
                Some(h) => if all_visible_ascii(h@) {
                    res matches Ok(s) && encode_utf8(s@) == h@
                } else {
                    res matches Err(r) && is_text_reply(
                        r,
                        STATUS_UNAUTHORIZED,
                        "Invalid authorization headers"@,
                    )
                },
            },
    {
        let bytes = match header {
            Some(b) => b,
            None => {
                return Err(text_reply(STATUS_UNAUTHORIZED, "Missing authorization headers"));
            },
        };
        let n = bytes.len();
        let mut i: usize = 0;
        while i < n
            invariant
                header == Some(bytes),
                n == bytes@.len(),
                i <= n,
                forall|j: int| 0 <= j < i ==> #[trigger] is_visible_ascii(bytes@[j]),
            decreases n - i,
        {
            if !((32 <= bytes[i] && bytes[i] < 127) || bytes[i] == 9) {
                assert(!is_visible_ascii(bytes@[i as int]));
                return Err(text_reply(STATUS_UNAUTHORIZED, "Invalid authorization headers"));
            }
            i = i + 1;
        }
        proof {
            assert forall|j: int| 0 <= j < bytes@.len() implies #[trigger] bytes@[j] < 0x80 by {
                assert(is_visible_ascii(bytes@[j]));
            }
            lemma_ascii_is_utf8(bytes@);
        }
        match utf8_text(bytes) {
            Some(s) => Ok(s.to_string()),
            None => Err(text_reply(STATUS_UNAUTHORIZED, "Invalid authorization headers")),
        }
    }
}

} // verus!
