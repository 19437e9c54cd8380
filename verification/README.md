# auth_api

Account registration, login and session handling for the dashboard API, written in
Verus.

- `src/` is the verified library: password hashing (Argon2), refresh-token secrets and
  their stored digests (SHA-256, hex), access-token signing and checking (HS256 JWT), the refresh-token
  cookie and its parsing, the `about.json` document, and the decisions of every
  authentication endpoint, one function per step between two database operations.
  Calls into `argon2`, `password-hash`, `sha2`, `hex`, `rand`, `uuid`, `chrono`,
  `jsonwebtoken` and `serde_json` go through small trusted wrappers whose contracts say
  what the library relies on.
- `app/` is the HTTP server (actix-web): it reads requests, runs the database operations
  (sqlx, PostgreSQL), hands each outcome to the library and turns the library's replies into HTTP responses. It also holds the serde and
  OpenAPI (utoipa) copies of the library's types.
- `tests/` runs the library against the real crates.

The server reads `DATABASE_URL`, `JWT_SECRET` and, optionally, `BIND_ADDRESS`.
