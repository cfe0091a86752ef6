# auth_ms

An authentication microservice: Argon2id passwords, HS256 access and
refresh tokens, users and roles with paginated listings, an idempotent
first-start bootstrap of an `admin` account, and pluggable e-mail.

## Layout

- `src/` — the verified library (Verus). Every decision the service makes
  stands here with its contract:
  - `services` — register, login, refresh and password change, each as
    steps between the user store's answers;
  - `jwt`, `claims`, `json` — token issuing; the claims' JSON text is
    framed here and signed by `jsonwebtoken`;
  - `password` — Argon2id hashing and verification (`argon2`);
  - `pagination`, `store` — page windows and counts, deletion outcomes,
    users shown without their hashes;
  - `error` — store, service and HTTP errors and how they map;
  - `extract` — bearer tokens and the admin check;
  - `bootstrap` — the first-start protocol as a state machine;
  - `config` — settings from environment values;
  - `email` — messages, the recording sender, the `.eml` text;
  - `laws` — properties spanning several operations.
- `app/` — the HTTP server (axum), the Postgres store (diesel), token
  decoding (serde claims), file output and the loops that run the
  library's state machines.
- `tests/` — tests of the library.
