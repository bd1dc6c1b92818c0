# followup

The verified core of a small event signup service: attendees verify with a FIDO2
security key (WebAuthn passkey ceremonies), then, once an admin has unlocked phase 2,
fill in a contact form; an export endpoint lists every registered key with its signup.

- `src/` is the library, verified with Verus: email normalization and validation, the
  step machines of the four ceremony endpoints and the two signup endpoints, the
  bearer-token checks, configuration validation, the JSON error answers, the static
  asset policy, the database URL handling, the relying party and the passkey values
  copied out of the authenticator library, and the export (a left join of users and
  signups, newest registration first).
- `app/` is the HTTP service around it (axum, SQLite through sqlx, tower-sessions): it
  reads the environment, runs the step machines against the session store and the
  database, and serves the embedded frontend.
- `tests/` exercises the library on concrete inputs.
