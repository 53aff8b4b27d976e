# web_api

A small todo web service: users sign up and sign in with a password, get a
session token (JWT), and keep todo entries that only they can see and change.

- `src/` is the library, written in Verus: input and credential validation,
  the stores of users and todos (records kept in key order), the
  authentication and todo use cases, the settings rules, the HTTP error
  mapping, and the writing of the stores to fjall keyspaces. Every function
  there carries a contract that Verus proves; calls into argon2,
  jsonwebtoken, chrono, uuid25, validator and fjall stand behind small
  trusted wrappers whose contracts are stated in their doc comments.
  `src/laws.rs` holds the properties that span several operations.
- `app/` is the server around the library: settings file and command line,
  the axum routes and handlers, JSON forms of the requests and records, and
  the background worker that writes changed stores to JSON files and fjall
  keyspaces in the data directory. Nothing is read back at start: the
  keyspaces are emptied when they are opened, so no data survives a
  restart.
- `tests/` exercises the library on concrete values.
