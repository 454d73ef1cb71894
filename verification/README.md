# tranquility

An ActivityPub server with a Mastodon-compatible client API.

- `src/` is the verified library (Verus): the ActivityPub entities and their
  addressing, delivery recipient lists, inbox dispatch and ownership checks,
  the decisions of the inbox handlers, collection pages, OAuth flows,
  registration validation, Mastodon API conversions, error responses,
  confirmation emails, and the cryptographic helpers around `argon2`, `rsa`,
  `sha2`, `base64` and `hex`. Calls into outside crates stand behind small
  trusted wrappers whose contracts are documented where they are declared.
- `tests/` exercises the library on concrete values.
- `app/` is the server around it: command line, configuration file, database
  queries (PostgreSQL through sqlx), HTTP routes (axum), outgoing requests
  (reqwest), email (lettre) and background maintenance.
