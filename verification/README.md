# chat

A WebSocket chat: a server that registers users, logs them in and passes chat
messages between them, and a terminal client.

The library (`src/`) holds the logic, verified with Verus:

- `keyed_map` — a map held as a list of entries with distinct keys (a type invariant).
- `persistence` — the `CRUD` trait with its contract, `CRUDError`, and
  `SimpleFileDB`, the store that backs the server's accounts; laws on reads after
  writes and on saving and loading back.
- `protocol` — the messages that client and server exchange.
- `server` — `AccountManager` (accounts, sessions, outboxes) and the decision that a
  connection takes on each message from its client.
- `client` — the client's state (its session token) and the decisions around each
  request and reply.

`app/` runs it: the tokio tasks, the WebSocket streams, JSON encoding, the account
file, and the terminal. Run `server <address>` or `client <address>`.
