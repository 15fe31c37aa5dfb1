# zombiesplit (verified core)

The library of the zombiesplit speedrun split timer, written in Verus: every function in
`src/` carries a contract that Verus proves.

- `src/model`: times (milliseconds, human-readable fields and their parsing and display),
  aggregates, comparisons, paces and deltas, runs, short names, games and sessions.
- `src/presenter`: the modal split editor (cursor, navigation, time editor) as a state machine
  over events.
- `src/net`: the client/server protocol messages, their encoding from and decoding into the
  model (with proofs that decoding gives back what encoding wrote), and the decisions that the
  client and server make.
- `src/text.rs`: digit strings: scanning, padding and decimal display.
- `app/`: ordinary Rust around the library: serialisation, database storage of times, error
  messages and gRPC statuses, and the presenter's event channel.
- `tests/`: tests of the library on concrete values.
