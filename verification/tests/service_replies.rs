use crud_auth::web::{Body, DbError, Message, Reply};
use crud_auth::{advanced_crud, auth, auth_dev, basic_crud, blog, blogify};

fn db_error(unique: bool) -> DbError {
    DbError { unique_violation: unique, message: "connection reset".to_string() }
}

fn text<T>(status: u16, t: &str) -> Reply<T> {
    Reply { status, body: Body::Text(t.to_string()) }
}

fn message(status: u16, k: &str, v: &str) -> Reply<Message> {
    Reply { status, body: Body::Json(Message { key: k.to_string(), value: v.to_string() }) }
}

fn book() -> basic_crud::GetBooks {
    basic_crud::GetBooks {
        id: 7,
        name: "Dune".to_string(),
        author: "Frank Herbert".to_string(),
        date: "2024-01-01 00:00:00".to_string(),
    }
}

fn is_timestamp(s: &str) -> bool {
    let (date, time) = match s.split_once(' ') {
        Some(parts) => parts,
        None => return false,
    };
    let digits = |t: &str| !t.is_empty() && t.chars().all(|c| c.is_ascii_digit());
    let d: Vec<&str> = date.split('-').collect();
    let year_ok = d.len() == 3 && d[0].len() == 4 && digits(d[0]);
    let date_ok = year_ok && d[1].len() == 2 && digits(d[1]) && d[2].len() == 2 && digits(d[2]);
    let (hms, frac) = match time.split_once('.') {
        Some((hms, frac)) => (hms, Some(frac)),
        None => (time, None),
    };
    let t: Vec<&str> = hms.split(':').collect();
    let time_ok = t.len() == 3 && t.iter().all(|p| p.len() == 2 && digits(p));
    let frac_ok = match frac {
        None => true,
        Some(f) => (f.len() == 3 || f.len() == 6 || f.len() == 9) && digits(f),
    };
    date_ok && time_ok && frac_ok
}

#[test]
fn timestamp_shape_examples() {
    assert!(is_timestamp("2024-01-02 03:04:05"));
    assert!(is_timestamp("2024-01-02 03:04:05.123456789"));
    assert!(!is_timestamp(""));
}

#[test]
fn basic_add_refuses_blank_fields() {
    let blank_name = basic_crud::CommonBooks { name: "  ".to_string(), author: "X".to_string() };
    let blank_author = basic_crud::CommonBooks { name: "X".to_string(), author: "\t".to_string() };
    for p in [blank_name, blank_author] {
        assert_eq!(basic_crud::add_books_row(&p), Err(text(400, "Name and author cant be empty")));
    }
}

#[test]
fn basic_add_keeps_fields_and_stamps_a_date() {
    let p = basic_crud::CommonBooks { name: " Dune ".to_string(), author: "Herbert".to_string() };
    let row = basic_crud::add_books_row(&p).unwrap();
    assert_eq!(row.name, " Dune ");
    assert_eq!(row.author, "Herbert");
    assert!(is_timestamp(&row.date), "{}", row.date);
}

#[test]
fn basic_book_reply_cases() {
    assert_eq!(basic_crud::book_reply(Ok(book())), Reply { status: 200, body: Body::Json(book()) });
    assert_eq!(basic_crud::book_reply(Err(db_error(false))), text(500, "Database Error"));
}

#[test]
fn basic_get_books_reply_cases() {
    assert_eq!(
        basic_crud::get_books_reply(Ok(vec![book()])),
        Reply { status: 200, body: Body::Json(vec![book()]) }
    );
    assert_eq!(basic_crud::get_books_reply(Err(db_error(false))), text(500, "Database error"));
}

#[test]
fn basic_delete_reply_cases() {
    assert_eq!(basic_crud::delete_books_reply(Ok(0)), text(404, "Book not found "));
    assert_eq!(basic_crud::delete_books_reply(Ok(1)), text(200, "Book deleted successfully"));
    assert_eq!(basic_crud::delete_books_reply(Ok(3)), text(200, "Book deleted successfully"));
    assert_eq!(basic_crud::delete_books_reply(Err(db_error(false))), text(500, "database error"));
}

#[test]
fn basic_update_row_keeps_fields() {
    let p = basic_crud::UpdateBooks { name: "N".to_string(), author: "A".to_string() };
    let row = basic_crud::update_books_row(&p).unwrap();
    assert_eq!((row.name.as_str(), row.author.as_str()), ("N", "A"));
    assert!(is_timestamp(&row.date), "{}", row.date);
}

#[test]
fn health_replies() {
    assert_eq!(basic_crud::health(), message(200, "Status is Ok ", "200"));
    assert_eq!(advanced_crud::health(), message(200, "status", "ok"));
    assert_eq!(auth_dev::health(), message(200, "Ok", "Status is green"));
    assert_eq!(auth::health(), message(200, "Ok", "Status is good "));
    assert_eq!(blog::health(), message(200, "Ok", "Status is ok "));
    assert_eq!(blogify::health(), Ok(message(200, "Status", "ok")));
}

#[test]
fn advanced_errors_map_to_status_and_body() {
    let cases = [
        (advanced_crud::AppError::DatabaseError("boom".to_string()), 500, "Database error"),
        (advanced_crud::AppError::NotFound, 404, "Not found"),
        (advanced_crud::AppError::BadRequest("why".to_string()), 400, "why"),
    ];
    for (e, status, msg) in cases {
        assert_eq!(e.status_code(), status);
        assert_eq!(e.message(), msg);
        assert_eq!(
            e.error_response(),
            Reply { status, body: Body::Json(advanced_crud::ErrorBody { error: msg.to_string() }) }
        );
    }
}

#[test]
fn advanced_add_books_flow() {
    let blank = advanced_crud::AddBooks { name: "".to_string(), author: "A".to_string() };
    assert_eq!(
        advanced_crud::add_books_check(&blank),
        Err(advanced_crud::AppError::BadRequest("Name and author are required".to_string()))
    );
    let ok = advanced_crud::AddBooks { name: "N".to_string(), author: "A".to_string() };
    assert_eq!(advanced_crud::add_books_check(&ok), Ok(()));
    let stored = advanced_crud::GetBooks { id: 1, name: "N".to_string(), author: "A".to_string(), date: "d".to_string() };
    assert_eq!(
        advanced_crud::add_books_reply(Ok(stored.clone())),
        Ok(Reply { status: 201, body: Body::Json(stored) })
    );
    assert_eq!(
        advanced_crud::add_books_reply(Err(db_error(false))),
        Err(advanced_crud::AppError::DatabaseError("connection reset".to_string()))
    );
}

#[test]
fn advanced_get_books_flow() {
    assert_eq!(advanced_crud::get_books_reply(Ok(vec![])), Ok(Reply { status: 200, body: Body::Json(vec![]) }));
    assert_eq!(
        advanced_crud::get_books_reply(Err(db_error(true))),
        Err(advanced_crud::AppError::DatabaseError("connection reset".to_string()))
    );
}

#[test]
fn auth_dev_errors_map_to_status_and_body() {
    let cases = [
        (auth_dev::AppError::InternalServerError("x".to_string()), 500, "Internal server error"),
        (auth_dev::AppError::NotFound, 404, "Not found in the scope"),
        (auth_dev::AppError::BadRequest, 400, "Invalid credentials"),
        (auth_dev::AppError::Unauthorized, 401, "Unauthorized"),
    ];
    for (e, status, msg) in cases {
        assert_eq!(
            e.error_response(),
            Reply { status, body: Body::Json(auth_dev::ErrorBody { error: msg.to_string() }) }
        );
    }
}

#[test]
fn auth_dev_user_from_details() {
    let user = auth_dev::User::from_details("a@b.c", String::from("hash")).unwrap();
    assert_eq!(user.email, "a@b.c");
    assert_eq!(user.hash, "hash");
}

#[test]
fn auth_errors_reply_as_text() {
    let cases = [
        (auth::AppError::InternalError("x".to_string()), 500, "Internal server error"),
        (auth::AppError::NotFound, 404, "Not found"),
        (auth::AppError::Unauthorized, 401, "Unauthorized"),
        (auth::AppError::BadRequest, 400, "Invalid credentials"),
    ];
    for (e, status, msg) in cases {
        assert_eq!(e.error_response(), text(status, msg));
    }
}

#[test]
fn auth_register_flow() {
    let payload = auth::Register {
        name: "Bo".to_string(),
        email: "bo@example.com".to_string(),
        pwd: "pw".to_string(),
    };
    let row = auth::register_row(&payload).unwrap();
    assert_eq!(row.name, "Bo");
    assert_eq!(row.email, "bo@example.com");
    assert_eq!(blogify::verify_password("pw", &row.pass), Ok(true));
    assert_eq!(
        auth::register_reply(Ok(())),
        Ok(message(201, "message", "User created successfully"))
    );
    assert_eq!(auth::register_reply(Err(db_error(true))), Err(auth::AppError::BadRequest));
    assert_eq!(
        auth::register_reply(Err(db_error(false))),
        Err(auth::AppError::InternalError("connection reset".to_string()))
    );
}

#[test]
fn blog_errors_map_to_status_and_body() {
    let cases = [
        (blog::AppError::InternalServerError("x".to_string()), 500, "Internal server error"),
        (blog::AppError::NotFound, 404, "Not found"),
        (blog::AppError::Unauthorized, 401, "Unauthorized"),
        (blog::AppError::AlreadyExist, 409, "Already exist"),
        (blog::AppError::NotExist, 404, "Does not exist "),
    ];
    for (e, status, msg) in cases {
        assert_eq!(
            e.error_response(),
            Reply { status, body: Body::Json(blog::ErrorBody { error: msg.to_string() }) }
        );
    }
}

#[test]
fn blog_register_steps() {
    let payload = blog::Register {
        name: "Cy".to_string(),
        email: "cy@example.com".to_string(),
        password: "pw".to_string(),
    };
    assert_eq!(blog::register_begin(&payload), blog::RegisterStep::LookupEmail("cy@example.com".to_string()));
    assert_eq!(
        blog::register_after_lookup(&payload, Ok(true)),
        blog::RegisterStep::Finish(Err(blog::AppError::AlreadyExist))
    );
    assert_eq!(
        blog::register_after_lookup(&payload, Err(db_error(false))),
        blog::RegisterStep::Finish(Err(blog::AppError::InternalServerError(
            "Could not fetch the users from the database".to_string()
        )))
    );
    assert_eq!(
        blog::register_after_insert(Ok(())),
        blog::RegisterStep::Finish(Ok(message(201, "OK", "User is created successfully")))
    );
    assert_eq!(
        blog::register_after_insert(Err(db_error(true))),
        blog::RegisterStep::Finish(Err(blog::AppError::InternalServerError(
            "Could not isert user into the database".to_string()
        )))
    );
}

#[test]
fn blog_register_with_bad_salt_reports_hashing() {
    let payload = blog::Register {
        name: "Cy".to_string(),
        email: "cy@example.com".to_string(),
        password: "pw".to_string(),
    };
    match blog::register_after_lookup_with_salt(&payload, Ok(false), "!") {
        blog::RegisterStep::Finish(Err(blog::AppError::InternalServerError(m))) => {
            assert!(m.starts_with("Could not hash the password : "));
        }
        other => panic!("unexpected {:?}", other),
    }
}

#[test]
fn blog_authorization_header_checks() {
    assert_eq!(blog::AuthUser::authorization(None), Err(text(401, "Missing authorization headers")));
    assert_eq!(
        blog::AuthUser::authorization(Some(b"Bearer abc.def\tx")),
        Ok("Bearer abc.def\tx".to_string())
    );
    assert_eq!(blog::AuthUser::authorization(Some(b"")), Ok(String::new()));
    assert_eq!(
        blog::AuthUser::authorization(Some(b"Bearer \xc3\xa9")),
        Err(text(401, "Invalid authorization headers"))
    );
    assert_eq!(
        blog::AuthUser::authorization(Some(b"a\nb")),
        Err(text(401, "Invalid authorization headers"))
    );
}

#[test]
fn blogify_errors_and_signup() {
    let cases = [
        (blogify::AppError::InternalError("x".to_string()), 500, "Internal server error "),
        (blogify::AppError::NotFound, 404, "Not found "),
        (blogify::AppError::BadRequest, 400, "Inavalid input"),
    ];
    for (e, status, msg) in cases {
        assert_eq!(
            e.error_response(),
            Reply { status, body: Body::Json(blogify::ErrorBody { error: msg.to_string() }) }
        );
    }
    let payload = blogify::SignUp {
        name: "Di".to_string(),
        email: "di@example.com".to_string(),
        password: "pw".to_string(),
    };
    let row = blogify::signup_row(&payload).unwrap();
    assert_eq!((row.name.as_str(), row.email.as_str()), ("Di", "di@example.com"));
    assert_eq!(blogify::verify_password("pw", &row.pass), Ok(true));
    let show = blogify::Show { name: "Di".to_string(), email: "di@example.com".to_string() };
    assert_eq!(blogify::signup_reply(Ok(show.clone())), Ok(Reply { status: 201, body: Body::Json(show) }));
    assert_eq!(
        blogify::signup_reply(Err(db_error(false))),
        Err(blogify::AppError::InternalError("Database error".to_string()))
    );
}
