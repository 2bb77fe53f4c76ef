# chat_cli agent environment

The core of a terminal chat agent environment: workers that hold a conversation with a
language model, the jobs they run, the events those jobs publish, and the decisions of
the terminal, structured and web interfaces. The library is written in Verus, and
Verus proves the functions in `src/` against their contracts, except the small
`external_body` functions that call `uuid`, `serde_json`, `tokio`, `tokio_util` and std:
their contracts are trusted, and each one's doc comment says what it claims. The few
functions that only hand on what the clock or the event channel gives (`now`,
`EventBus::subscribe`, `EventBus::subscriber_count`, `JobToken::token`) promise nothing
of their result.

The model service client is not part of this crate: `app/` declares the
`ModelProvider` interface, and the pieces of a response that can be computed
(`ResponseAccumulator`, `conversation_id_for`) are verified in `src/model.rs`.

## Layout

- `src/` — the verified library.
  - `session.rs`: workers, jobs and their lifecycle; the steps of an agent loop round.
  - `events.rs`, `event_bus.rs`: the events and the bus that carries them.
  - `commands.rs`, `environment.rs`: parsing user input and carrying out commands.
  - `conversation.rs`, `context.rs`, `model.rs`, `metadata.rs`, `worker.rs`,
    `worker_builder.rs`: the data of a worker and the model requests built from it.
  - `ui_utils.rs`, `structured_io.rs`: what the terminal and structured interfaces
    print and how they read input.
  - `web/`: event conversion, JSON views, REST answers and WebSocket commands.
  - `cancellation.rs`: the cancellation tokens of jobs.
  - `properties.rs`: properties that relate several operations.
  - `ids.rs`, `text.rs`: identifiers and text helpers.
- `app/` — the asynchronous runtime around the library: tasks, terminal input and
  output, the model provider interface, resource loading and the web server.
- `tests/` — tests of the library.
