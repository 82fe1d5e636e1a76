# oauth

The verified core of the oauth.uz identity service.

- `src/` — the library, verified with Verus:
  - `domain/` — pagination requests and pages, commands and their
    validation, errors, users and principals;
  - `store/` — turning a listing request into a keyset query and the rows it
    returns into a page;
  - `usecase/` — password hashing (Argon2), JWT issuing and checking, and the
    decisions of the users use case;
  - `middleware/` — the client's address behind a reverse proxy, rate-limit
    quotas and decisions;
  - `controller/` — provider redirects and the shape of error answers;
  - `config.rs` — settings from environment values;
  - `frontend/` — the model behind the web front end (providers, sign-in
    state, confirmation-code entry).
- `app/` — the HTTP server around it (axum, diesel-async, governor,
  tower-http).
- `tests/` — tests of the library.
