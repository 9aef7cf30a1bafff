//! The book catalogue: create, list, fetch, update and delete books. Each
//! handler's decisions before and after its database call.

use crate::clock::{
    in_calendar, is_timestamp_text, offset_well_formed, since_epoch, timestamp_of, utc_text,
    utc_text_of, EpochOffset,
};
use crate::text::{is_blank, spec_is_blank};
use crate::web::{
    is_json_reply, is_message_reply, is_text_reply, json_reply, message_reply, text_reply,
    DbError, Message, Reply, STATUS_BAD_REQUEST, STATUS_INTERNAL_SERVER_ERROR, STATUS_NOT_FOUND,
    STATUS_OK,
};
use vstd::prelude::*;

verus! {

/// A book as stored.
#[derive(Debug, Clone, PartialEq, Eq)]
pub struct GetBooks {
    pub id: i32,
    pub name: String,
    pub author: String,
    pub date: String,
}

/// The form that adds a book.
#[derive(Debug, Clone, PartialEq, Eq)]
pub struct CommonBooks {
    pub name: String,
    pub author: String,
}

/// The form that updates a book.
#[derive(Debug, Clone, PartialEq, Eq)]
pub struct UpdateBooks {
    pub name: String,
    pub author: String,
}

/// The values written for a book: its name, author and the time of writing.
#[derive(Debug, Clone, PartialEq, Eq)]
pub struct BookRow {
    pub name: String,
    pub author: String,
    pub date: String,
}

/// The health check: 200 with `{"Status is Ok ": "200"}`.
pub fn health() -> (reply: Reply<Message>)
    ensures
        is_message_reply(reply, STATUS_OK, "Status is Ok "@, "200"@),
{
    message_reply(STATUS_OK, "Status is Ok ", "200")
}

/// The reply when the clock reads outside what the calendar holds.
pub open spec fn is_clock_failure<T>(r: Reply<T>) -> bool {
    is_text_reply(r, STATUS_INTERNAL_SERVER_ERROR, "Could not read the clock"@)
}

/// The date stamped for a clock reading, where there is one: chrono's UTC
/// rendering of its timestamp.
pub open spec fn stamp_of(clock: EpochOffset) -> Option<Seq<char>> {
    match timestamp_of(clock) {
        Some((secs, nanos)) => utc_text(secs, nanos),
        None => None,
    }
}

/// A row holds the values as given and the date stamped for the reading.
pub open spec fn is_row_for(row: BookRow, name: Seq<char>, author: Seq<char>, clock: EpochOffset) -> bool {
    row.name@ == name && row.author@ == author && stamp_of(clock) == Some(row.date@)
        && is_timestamp_text(row.date@)
}

/// A row holds the values as given and the date stamped for some well-formed
/// clock reading.
pub open spec fn is_row_at_some_reading(row: BookRow, name: Seq<char>, author: Seq<char>) -> bool {
    exists|clock: EpochOffset| offset_well_formed(clock) && #[trigger] is_row_for(
        row,
        name,
        author,
        clock,
    )
}

/// The values written for the given name and author at a clock reading: the
/// date is the reading in UTC, `YYYY-MM-DD HH:MM:SS[.fff]`; 500 where the
/// reading has no date (always present within `in_calendar`).
fn stamped_row(name: &String, author: &String, clock: EpochOffset) -> (res: Result<
    BookRow,
    Reply<GetBooks>,
>)
    ensures
        match stamp_of(clock) {
            Some(_) => (res matches Ok(row) && is_row_for(row, name@, author@, clock)),
            None => (res matches Err(r) && is_clock_failure(r)),
        },
        timestamp_of(clock) matches Some((secs, _)) && in_calendar(secs) ==> res is Ok,
{
    match utc_text_of(clock) {
        Some(date) => Ok(BookRow { name: name.clone(), author: author.clone(), date }),
        None => Err(text_reply(STATUS_INTERNAL_SERVER_ERROR, "Could not read the clock")),
    }
}

/// Adding a book at a given clock reading: a name or author that is empty
/// once trimmed is refused with 400 before anything else; otherwise the row
/// to insert, stamped with the reading in UTC, or 500 where the reading has
/// no date.
pub fn add_books_row_at(payload: &CommonBooks, clock: EpochOffset) -> (res: Result<
    BookRow,
    Reply<GetBooks>,
>)
    ensures
        if spec_is_blank(payload.name@) || spec_is_blank(payload.author@) {
            res matches Err(r) && is_text_reply(r, STATUS_BAD_REQUEST, "Name and author cant be empty"@)
        } else {
            match stamp_of(clock) {
                Some(_) => (res matches Ok(row) && is_row_for(row, payload.name@, payload.author@, clock)),
                None => (res matches Err(r) && is_clock_failure(r)),
            }
        },
        !(spec_is_blank(payload.name@) || spec_is_blank(payload.author@)) && (timestamp_of(clock) matches Some((secs, _)) && in_calendar(secs)) ==> res is Ok,
{
    if is_blank(payload.name.as_str()) || is_blank(payload.author.as_str()) {
        return Err(text_reply(STATUS_BAD_REQUEST, "Name and author cant be empty"));
    }
    stamped_row(&payload.name, &payload.author, clock)
}

/// Adding a book: a name or author that is empty once trimmed is refused
/// with 400 before the clock or the database is touched; otherwise the row
/// to insert, stamped with the current UTC time (`YYYY-MM-DD HH:MM:SS[.fff]`),
/// or 500 where the clock reads outside what the calendar holds.
pub fn add_books_row(payload: &CommonBooks) -> (res: Result<BookRow, Reply<GetBooks>>)
    ensures
        spec_is_blank(payload.name@) || spec_is_blank(payload.author@) ==> (res matches Err(r)
            && is_text_reply(r, STATUS_BAD_REQUEST, "Name and author cant be empty"@)),
        !(spec_is_blank(payload.name@) || spec_is_blank(payload.author@)) ==> (res is Ok || (
        res matches Err(r) && is_clock_failure(r))),
        res matches Ok(row) ==> row.name@ == payload.name@ && row.author@ == payload.author@
            && is_timestamp_text(row.date@),
        res matches Ok(row) ==> is_row_at_some_reading(row, payload.name@, payload.author@),
{
    if is_blank(payload.name.as_str()) || is_blank(payload.author.as_str()) {
        return Err(text_reply(STATUS_BAD_REQUEST, "Name and author cant be empty"));
    }
    add_books_row_at(payload, since_epoch())
}

/// The reply once a book has been inserted, read or updated: 200 with the
/// book the database returned, or 500.
pub fn book_reply(stored: Result<GetBooks, DbError>) -> (reply: Reply<GetBooks>)
    ensures
        match stored {
            Ok(book) => is_json_reply(reply, STATUS_OK, book),
            Err(_) => is_text_reply(reply, STATUS_INTERNAL_SERVER_ERROR, "Database Error"@),
        },
{
    match stored {
        Ok(book) => json_reply(STATUS_OK, book),
        Err(_) => text_reply(STATUS_INTERNAL_SERVER_ERROR, "Database Error"),
    }
}

/// The reply once the books have been read: 200 with them, or 500.
pub fn get_books_reply(fetched: Result<Vec<GetBooks>, DbError>) -> (reply: Reply<Vec<GetBooks>>)
    ensures
        match fetched {
            Ok(books) => is_json_reply(reply, STATUS_OK, books),
            Err(_) => is_text_reply(reply, STATUS_INTERNAL_SERVER_ERROR, "Database error"@),
        },
{
    match fetched {
        Ok(books) => json_reply(STATUS_OK, books),
        Err(_) => text_reply(STATUS_INTERNAL_SERVER_ERROR, "Database error"),
    }
}

/// The reply once the delete has run, given how many rows it removed: 404
/// when none, 200 otherwise, 500 when the database failed.
pub fn delete_books_reply(deleted: Result<u64, DbError>) -> (reply: Reply<()>)
    ensures
        match deleted {
            Ok(rows) => if rows == 0 {
                is_text_reply(reply, STATUS_NOT_FOUND, "Book not found "@)
            } else {
                is_text_reply(reply, STATUS_OK, "Book deleted successfully"@)
            },
            Err(_) => is_text_reply(reply, STATUS_INTERNAL_SERVER_ERROR, "database error"@),
        },
{
    match deleted {
        Ok(rows) => {
            if rows == 0 {
                text_reply(STATUS_NOT_FOUND, "Book not found ")
            } else {
                text_reply(STATUS_OK, "Book deleted successfully")
            }
        },
        Err(_) => text_reply(STATUS_INTERNAL_SERVER_ERROR, "database error"),
    }
}

/// The values an update writes at a given clock reading: the new name and
/// author as given, stamped with the reading in UTC; 500 where the reading
/// has no date.
pub fn update_books_row_at(payload: &UpdateBooks, clock: EpochOffset) -> (res: Result<
    BookRow,
    Reply<GetBooks>,
>)
    ensures
        match stamp_of(clock) {
            Some(_) => (res matches Ok(row) && is_row_for(row, payload.name@, payload.author@, clock)),
            None => (res matches Err(r) && is_clock_failure(r)),
        },
        timestamp_of(clock) matches Some((secs, _)) && in_calendar(secs) ==> res is Ok,
{
    stamped_row(&payload.name, &payload.author, clock)
}

/// The values an update writes: the new name and author as given, stamped
/// with the current UTC time (`YYYY-MM-DD HH:MM:SS[.fff]`), or 500 where
/// the clock reads outside what the calendar holds.
pub fn update_books_row(payload: &UpdateBooks) -> (res: Result<BookRow, Reply<GetBooks>>)
    ensures
        res matches Ok(row) ==> row.name@ == payload.name@ && row.author@ == payload.author@
            && is_timestamp_text(row.date@),
        res matches Ok(row) ==> is_row_at_some_reading(row, payload.name@, payload.author@),
        res matches Err(r) ==> is_clock_failure(r),
{
    update_books_row_at(payload, since_epoch())
}

} // verus!
