# fta

The core of a finance-tracking back end — users, accounts, authentication tokens,
two-factor codes, mail contents and the Google sign-in exchange — written in Verus
with contracts that the verifier proves.

- `src/` is the verified library. Each use case (registering, signing in, resetting
  a password, listing accounts, …) is a state machine: it asks for one outside
  operation at a time (`flow::Op`) and takes its outcome (`flow::Outcome`) until it
  finishes. Its contract states, for every outcome, the next operation or the
  result. Calls into outside crates (base32, TOTP, QR codes, URL encoding, hex,
  JWT signing and reading, UUIDs, the clock, randomness) go through small trusted
  wrappers whose contracts are documented beside them.
- `app/` is the unverified service around it: HTTP handlers and routes (axum),
  PostgreSQL storage (sqlx), SMTP (lettre), the Google HTTP calls (reqwest), and
  the driver that performs the operations the use cases ask for.
- `tests/` exercises the library from outside.
