# waterbus_rs

The rules of a video-call signalling backend, verified with Verus, and a small server
around them.

- `src/` is the verified library. Rooms (`room_service`), their chat (`chat_service`),
  users (`user_service`) and sign-in tokens (`auth`) take their decisions in public
  functions with exact contracts. The service structs read and write through the storage
  traits of `repositories`, each behind a store that records every call with its answer;
  their contracts say which calls they make, in which order, and what they answer for each
  answer of the stores, while what a store answers is left to its implementation. `room_repository` and `grouping` put rooms together from the
  rows the database returns. `meetings/` holds the meeting service (meetings joined by a
  numeric code, invitations, per-meeting chat and media sessions); `socket/` what the call
  socket receives, broadcasts and decides; `config`, `search` and `storage` the settings,
  the user search index and upload keys. Calls into outside crates stand in `outside.rs`
  (and `String::push` in `strings.rs`), each behind a contract that says what the source
  shows. The room listing's order, paging and filters are chosen in `room_repository`
  from the candidate rows the database gives.
- `tests/` runs the services over in-memory repositories and checks the pure functions on
  concrete values.
- `app/` is the HTTP server: PostgreSQL repositories with diesel, JSON with serde, routes
  and guards with salvo.
