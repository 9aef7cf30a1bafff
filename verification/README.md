# crud_auth

Six small HTTP services (a book catalogue in two forms, two account
services, two blog services) whose request handling is proved against its
contracts.

- `src/` is the verified library. Each service has a module with its error
  type (status and message of every error), its request and row types, and
  the decisions a handler makes before and after each database call: blank
  fields are refused, database outcomes become replies, passwords are hashed
  and checked with Argon2, the `Authorization` header is checked.
  `text`, `web`, `password` and `clock` are shared.
- `app/` runs the servers with actix-web and sqlx; it reads requests, talks to
  PostgreSQL, and sends what the library decides. `app/main.rs` takes the name
  of the service to run as its first argument.
- `tests/` exercises the library on concrete values.
