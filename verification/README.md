# smart_window

The rules of a small shop for smart windows, verified with Verus: which user
names, email addresses, passwords, delivery addresses and window settings are
valid; how each error is reported over HTTP; how a login or a session refresh
proceeds from lookup to issued tokens; how a session token is written as JWT
claims and read back; and what the browser client checks and shows.

- `src/` is the verified library (`domain`, `api`, `services`, `jwt`,
  `hashing`, `client`, and the helpers `text`, `clock`, `ids`).
- `app/` is the server around it (axum, PostgreSQL through sqlx, JWT through
  jsonwebtoken) and the Leptos client's components.
- `tests/` exercises the library on concrete values.
