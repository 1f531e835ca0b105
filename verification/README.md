# play_sessions

Play-session tracking for a learning game, verified with Verus.

- `src/` is the verified library: player profiles (`profile`), session
  events and their kinds (`event`), play sessions (`session`), session
  summaries (`summary`), a store of sessions (`store`), a text-keyed map
  (`map`) and text helpers (`text`).
- `app/` holds what the library does not: the serialisable (serde) forms of
  its types, and the floating-point rules (experience and level-ups, the
  fun score), which the library carries as bit patterns and counts.
- `tests/` exercises the library.
