# Personal Context Core

A local-first personal assistant: each query is routed to a local or cloud
model, the system prompt is built from the user's memories and policies, and
after each turn the conversation is mined for proposed memories that wait for
the user's review.

- `src/` is the verified library (Verus): the records, the names under which
  they are stored and the readers of stored rows, query routing, the
  registry that picks a slot's adapter, prompt building, memory retrieval
  queries, the extraction worker's reading of the model's reply and its
  signals for each proposed memory, and the text primitives they rest on.
  Calls into `uuid`, `chrono`, `regex`, `serde_json` and `jsonschema` sit
  behind small trusted wrappers in `src/stamp.rs`, `src/json.rs`,
  `src/text.rs` and `src/jobs/extraction_worker.rs`.
- `app/` is the application around it: SQLite through `sqlx`, the Anthropic
  HTTP adapter through `reqwest`, the background extraction job on `tokio`,
  the serde copies of the records, and the floating-point confidence
  arithmetic.
- `tests/` runs the library on concrete values.
