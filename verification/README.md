# household_ledger

A household-ledger web service (user accounts and account-book records on
PostgreSQL) whose domain logic is a library verified with Verus.

## Layout

- `src/` — the verified library.
  - `errors` — the service's error type and the HTTP answer for each error.
  - `auth` — where a private request's access token is taken from.
  - `sql` — parameterised statements and the numbering of placeholders.
  - `text`, `form`, `date` — decimal rendering, lower-casing, URL form
    encoding and calendar arithmetic, the last three through `std`, `url` and
    `chrono`.
  - `user` — login types, request bodies, the account entity, password rules
    and Argon2 hashing, the statements of the user repository and the steps
    of sign-in and account update.
  - `record` — record bodies and entities, search periods and the checked
    update, delete and search statements of the record repository.
- `tests/` — tests of the library on concrete values.
- `app/` — the HTTP server: JSON bodies, the PostgreSQL calls, the
  authentication layer and the routes, around the library.

Each public function of `src/` states its result in its `ensures` clause over
the views of its arguments; the functions named `law_*` state properties
that relate several functions.
