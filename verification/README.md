# tracing_async2

Tracing layers that hand each event to a callback, a channel or an async
task, and an owned, serializable form of the events (`OwnedEvent`) and of
their parent spans.

- `src/` is the verified library: the verbosity level (`level.rs`), the
  recording of field values into a JSON object (`fields.rs`), the owned
  events and span objects (`event.rs`), the callback layers (`layer.rs`), the
  decisions of the attribute that generates channel layers (`layer_fn.rs`),
  and the trusted declarations of what it uses from `serde_json` (`json.rs`)
  and `tracing` (`metadata.rs`, `level.rs`, `layer.rs`).
- `app/` holds what runs inside `tracing`'s machinery: the `Layer` and
  `Visit` impls, the channel, task and lock plumbing, the serializable
  copies of the event types, and the attribute's syntax rewriting.
- `tests/` exercises the library.
