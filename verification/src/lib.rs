//! Request handling for a set of small book-catalogue and account services:
//! input validation, the mapping of failures to HTTP statuses and bodies,
//! password hashing and checking, and the decisions that follow each
//! database round trip. Network, database and JSON work stays with the
//! caller; every function here takes and returns plain values.

/// White space and blank text.
pub mod text;
/// Replies, statuses and the plain values exchanged with the database layer.
pub mod web;
/// Argon2 hashing and checking of passwords.
pub mod password;
/// Readings of the system clock.
pub mod clock;

/// The book catalogue.
pub mod basic_crud;
/// The book catalogue with typed errors.
pub mod advanced_crud;
/// The account service.
pub mod auth;
/// The account service in development.
pub mod auth_dev;
/// The blog service.
pub mod blog;
/// The blog service with sign-up.
pub mod blogify;
