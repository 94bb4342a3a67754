# recall

A supervised agent that learns workflows step by step: it observes the user,
then suggests, and only after repeated successful sessions executes known,
confident, non-final steps. Final actions (publish, release, submit, delete,
purchase, confirmations) always wait for a person, and sensitive values are
redacted before they are kept.

- `src/` — the verified library: models and redaction (`model.rs`), text
  folding and search (`text.rs`), the promotion engine and its laws
  (`engine.rs`), in-memory observation with a shared pause switch
  (`observer.rs`), the accessibility boundary (`accessibility.rs`), and the
  declarations of outside types and calls (`external.rs`).
- `app/` — the command-line program: SQLite storage, serializable records of
  the models, the macOS accessibility backend and the demos.
- `tests/` — tests of the library.

Confidences are counted in millionths (one million is full confidence).
