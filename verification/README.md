# fleet-bottle

Inter-agent messaging for a fleet of agents. A **bottle** is an immutable
message cast from one agent to another (or to the whole fleet): it carries a
payload, a priority, optional metadata and an optional time-to-live.

The library under `src/` is written in Verus and verified:

- `priority` — the four priority levels and their order;
- `time` — UTC instants and durations with nanosecond precision (the clock
  and date arithmetic come from `chrono`);
- `metadata` — string-keyed JSON metadata;
- `payload` — what a bottle carries;
- `bottle` — bottles, their builder, and expiry;
- `protocol` — the wire framing: JSON as is, or binary V1
  (`F1 B0 71 1E`, version byte, big-endian `u32` length, JSON payload), with
  format detection on decode;
- `transport` — an in-memory queue of frames.

`app/` holds what stays outside verification: the serde forms of the bottle
types, encoding a bottle to JSON and back, the `Transport` trait and a
thread-safe in-memory transport.
