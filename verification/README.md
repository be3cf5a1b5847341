# pw-core

Shared types for the PromptWallet ecosystem (OpenAI-compatible chat types,
artifact storage types, extension registry types), written in Verus with
their behaviour stated in contracts and proved.

- `src/` — the verified library: `chat`, `artifacts`, `extensions`, string
  helpers in `text`, and in `interop` the outside types it carries
  (`uuid::Uuid`, `serde_json::Value`), the calls it makes into `uuid` and
  `serde_json`, and its reading of the system clock.
- `app/` — the wire forms: copies of the library's types with their serde
  attributes and conversions both ways (times become `chrono::DateTime`), plus the types that hold
  floating-point numbers (chat completion request, search query and results).
- `tests/` — tests of the library.
