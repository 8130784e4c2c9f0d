# agentic_conversations

Conversation storage and the HTTP rules of an OpenAI-compatible conversations
API, verified with Verus.

- `src/` is the verified library.
  - `model.rs`, `error.rs`: rows, items, store errors and their texts.
  - `json.rs`: the trusted calls into `serde_json` (parsing) and `uuid` (ids).
  - `db.rs`: the protocol between the store and a database driven by the caller:
    `DbAction` (what the store asks for), `DbEvent` (the reply), and `run`, the
    actions and result of an operation over a sequence of replies.
  - `store.rs`, `machines.rs`: `ConversationStore`; each operation is a machine
    whose steps decide what to ask next on each reply (ownership checks, cursor
    resolution, revision bumps, error mapping).
  - `laws.rs`: what each multi-step operation does over every sequence of replies.
  - `sql.rs`: the item-page query text, which follows the requested order.
  - `http.rs`: request validation, pagination, error answers and response shaping.
- `app/` runs the machines against SQLite with `sqlx` and serves them over HTTP
  with `axum`.
- `tests/` drives the store against an in-memory database and checks the HTTP rules.
