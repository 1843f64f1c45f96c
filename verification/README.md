# crosstalk

Topic-based publish/subscribe over bounded broadcast channels (tokio's
`broadcast`), with the library's logic verified by Verus.

- `src/` — the verified library:
  - `node.rs`: the node that maps each topic to one channel, opened on first
    use; the requests for publishers and subscribers of a topic, with the
    type check of the requested data type against the declared one.
  - `handle.rs`: publishers and subscribers, and the read policies (pass
    over lags, single attempt, blocking).
  - `bounded.rs`: the node behind a lock that users hold and clone.
  - `schema.rs`: the check that a topic table names one topic enum.
  - `laws.rs`: what holds of a node across requests.
  - `channel.rs`: the channel handles, each with its channel's label and,
    for receivers, the record of what they delivered; the calls into tokio.
  - `erased.rs`: the calls into `std::any`.
  - `error.rs`: the errors and their text.
- `app/` — the asynchronous operations, the error type with `Display`, and
  the code generation for topic enums and topic tables.
- `tests/` — the tests, run against the compiled library.
