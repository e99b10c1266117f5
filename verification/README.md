# slack

A Slack real-time messaging client whose decisions are verified with Verus.

- `src/events.rs` — the `Event` type, its errors, and `Event::from_json`, which
  decodes the JSON text of a websocket frame.
- `src/decode.rs` — the event that a frame's `type` field names, read from its
  fields (`decode_fields`).
- `src/fields.rs` — a frame's fields, and each field read as text, a flag, or a
  Web API value.
- `src/client.rs` — where a session connects (`websocket_url`,
  `websocket_domain`) and the session itself as a state machine (`step`), with
  the laws that every run of it keeps.
- `src/timestamps.rs` — which JSON texts hold a timestamp string that the Web
  API crate cannot decode without overflow; such frames are refused.
- `src/api_types.rs` — the Slack Web API types that events carry.
- `app/lib.rs` — logging in, the sockets, TLS and the websocket, driving `step`.
