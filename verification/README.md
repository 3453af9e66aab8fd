# parcel_tracker

The verified core of a real-time parcel tracking backend (drivers stream
their positions over WebSockets, customers follow them through Redis
pub/sub, positions are kept as a history in PostgreSQL).

- `src/` is the library, proved with Verus: the Redis key layout (`keys`,
  `bus`), the driver and subscriber session decisions (`driver`,
  `subscriber`, `channels`), history de-duplication and batching
  (`history`), one-time passwords (`otp`), accounts, passwords and session
  tokens (`account`, `password`, `token`, `clock`), the request check
  (`auth`) and error answers (`error`).
- `app/` is the server around it: axum routes, Redis, PostgreSQL, SMTP and
  the serde forms of the library's types.
- `tests/` exercises the library on concrete values.
