# rocketmq_send

The decisions a message broker takes when a producer sends a message: which requests are refused
and how the refusal is worded, what is handed to the message store, and what the producer is
answered once the store has replied. The library is verified with Verus.

- `src/session.rs` takes a request step by step through the broker. The library says what is to
  be done next; the host does it and reports back.
- `src/processor.rs` decides on single messages and on batches, and answers stored ones.
- `src/command.rs`, `src/message.rs`, `src/properties.rs`, `src/topic.rs`, `src/store.rs`,
  `src/config.rs`, `src/address.rs` and `src/text.rs` hold the data and what is computed on it.
- `src/dispatcher.rs` holds the dispatcher that builds consume queues.
- `src/laws.rs` and `src/property_laws.rs` prove what holds of every request and of every text of
  properties.
- `app/` is the host: the loop around a session, the store, the clock and the wire.
