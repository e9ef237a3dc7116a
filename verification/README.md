# api_server

The backend of a build-counter service: users log in through GitHub, are
issued a JSON web token, and can be looked up through a small user api.

- `src/` is the library, verified with Verus: error responses and `Accept`
  header reading, the check that a login's return url belongs to the
  frontend, issuing and reading tokens, the GitHub login flow and the
  find-or-create of system users and the reading or creating of stored
  secrets (as step functions whose database and network work the caller
  performs), and small helpers.
  Calls into `url`, `uuid`, `jsonwebtoken`, `oauth2` and `rand` stand
  behind trusted wrappers. Where the result depends on the arguments alone,
  the contract names or states it; where it rests on chance or the clock
  (drawn ids, random bytes, the current time, a token's expiry), the
  contract says what holds of every outcome, or nothing.
- `app/` is the server program around it: configuration, the Postgres
  database (diesel), GitHub requests, sessions and the actix-web routes.
- `tests/` runs the library against the real outside crates.
