use crud_auth::blogify::{self, hash_password, hash_password_with_salt, verify_password};
use crud_auth::{auth, blog};

#[test]
fn hash_then_verify_accepts_the_same_password() {
    let hash = hash_password("correct horse").unwrap();
    assert!(hash.starts_with("$argon2id$v=19$"));
    assert_eq!(verify_password("correct horse", &hash), Ok(true));
}

#[test]
fn verify_refuses_another_password() {
    let hash = hash_password("correct horse").unwrap();
    assert_eq!(verify_password("battery staple", &hash), Ok(false));
}

#[test]
fn verify_reports_a_malformed_hash() {
    assert_eq!(
        verify_password("pw", "not a hash"),
        Err(blogify::AppError::InternalError("Wrong hash is there ".to_string()))
    );
}

#[test]
fn two_hashes_of_one_password_differ_by_salt() {
    let a = hash_password("pw").unwrap();
    let b = hash_password("pw").unwrap();
    assert_ne!(a, b);
    assert_eq!(verify_password("pw", &a), Ok(true));
    assert_eq!(verify_password("pw", &b), Ok(true));
}

#[test]
fn hash_with_fixed_salt_is_deterministic() {
    let salt = "c29tZXNhbHRzb21lc2FsdA";
    let a = hash_password_with_salt("pw", salt).unwrap();
    let b = hash_password_with_salt("pw", salt).unwrap();
    assert_eq!(a, b);
    assert!(a.starts_with("$argon2id$v=19$m=19456,t=2,p=1$c29tZXNhbHRzb21lc2FsdA$"));
    assert_ne!(a, "pw");
}

#[test]
fn hash_with_bad_salt_fails() {
    assert_eq!(
        hash_password_with_salt("pw", "!"),
        Err(blogify::AppError::InternalError("Hashing failed".to_string()))
    );
}

fn salt_error(salt: &str) -> String {
    argon2::password_hash::Salt::from_b64(salt).unwrap_err().to_string()
}

#[test]
fn auth_hash_failure_names_the_reason() {
    assert_eq!(
        auth::hash_password_with_salt("pw", "!"),
        Err(auth::AppError::InternalError(format!("Password hashing failed dude {}", salt_error("!"))))
    );
}

#[test]
fn hashes_parse_as_phc_strings() {
    let salt = "c29tZXNhbHRzb21lc2FsdA";
    for h in [
        hash_password("pw").unwrap(),
        auth::hash_password("pw").unwrap(),
        hash_password_with_salt("pw", salt).unwrap(),
        auth::hash_password_with_salt("pw", salt).unwrap(),
    ] {
        assert!(argon2::password_hash::PasswordHash::new(&h).is_ok(), "{}", h);
        assert!(h.starts_with("$argon2id$v=19$m=19456,t=2,p=1$"), "{}", h);
    }
}

#[test]
fn verify_never_fails_on_a_made_hash() {
    let hash = auth::hash_password("first").unwrap();
    for pw in ["", "first", "second", "\u{1F600}"] {
        assert!(verify_password(pw, &hash).is_ok(), "{:?}", pw);
    }
}

#[test]
fn auth_hash_verifies_with_blogify_check() {
    let hash = auth::hash_password("s3cret").unwrap();
    assert_eq!(verify_password("s3cret", &hash), Ok(true));
}

#[test]
fn blog_registration_reports_the_hashing_reason() {
    let payload = blog::Register {
        name: "Ada".to_string(),
        email: "ada@example.com".to_string(),
        password: "engine".to_string(),
    };
    assert_eq!(
        blog::register_after_lookup_with_salt(&payload, Ok(false), "!"),
        blog::RegisterStep::Finish(Err(blog::AppError::InternalServerError(format!(
            "Could not hash the password : {}",
            salt_error("!")
        ))))
    );
}

#[test]
fn blog_registration_inserts_a_verifiable_hash() {
    let payload = blog::Register {
        name: "Ada".to_string(),
        email: "ada@example.com".to_string(),
        password: "engine".to_string(),
    };
    match blog::register_after_lookup(&payload, Ok(false)) {
        blog::RegisterStep::Insert(user) => {
            assert_eq!(user.name, "Ada");
            assert_eq!(user.email, "ada@example.com");
            assert_eq!(verify_password("engine", &user.pass), Ok(true));
        }
        other => panic!("unexpected {:?}", other),
    }
}
