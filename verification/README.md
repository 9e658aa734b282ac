# client_catalogue_request

The verified core of a small B2B catalogue service: sellers keep a product
list, share client links, and receive quote requests.

- `src/` is the library, checked by Verus: request and catalogue validation,
  the stored form of saved rows and settings, the row and link allowances of
  free and licensed workspaces, seller sign-in checks, license URLs, client
  tokens and ids, per-caller rate limiting, the sample workspace, and runtime
  settings. `src/laws.rs` states the properties that span several calls.
- `app/` is the HTTP server around it (axum, SQLite through sqlx, the
  license and sign-in services through reqwest and jsonwebtoken).
- `tests/` exercises the library with the real outside crates linked.
