# chat_analytics

The verified core of a chat service's analytics pipeline and chat agents,
written in Verus.

- `src/pb.rs` — the analytics event messages clients send, as plain values.
- `src/events.rs` — the stored row of an event and how an event fills it
  (`AnalyticsEventRow::try_from`), plus the server's own information
  (`update_with_server_info`).
- `src/session.rs` — client sessions and their timeout.
- `src/decimal.rs` — decimal rendering of user ids.
- `src/extractors.rs` — which request bodies are taken as protobuf, and how
  refusals are answered.
- `src/config.rs` — the service configuration and where it is read from.
- `src/agent.rs` — chat agents: what each kind asks the model and decides.
- `src/clock.rs` — the wall clock.

`app/` holds the HTTP server around the library: request extraction, protobuf
decoding, YAML configuration, the ClickHouse client and the language-model
adapters.
