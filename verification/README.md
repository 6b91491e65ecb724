# jetstream_oxide

A typed client library for the Bluesky Jetstream service, verified with Verus.

- `src/` is the verified library: the subscription configuration and its
  limits, the query of the subscription URL (built in order and turned into a
  URL by the `url` crate), the connector that only ever holds a valid
  configuration, the event types, decimal text of integers, and the decisions
  of the task that receives events (`task::step`: what to do after each message,
  parse outcome or delivery outcome, with zstd decompression of binary
  messages).
- `tests/` runs the library on concrete values.
- `app/` is the asynchronous part: it opens the WebSocket connection, parses
  events from JSON with serde, delivers them over a channel and runs the
  receiving loop in a tokio task, asking `task::step` what to do next.
