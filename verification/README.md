# chat_serve

A line-delimited JSON chat server over TCP, with accounts, sessions, rooms,
direct messages that wait for offline users, moderation, full-text search
and file transfer, and the decisions of its line and terminal clients.

The library under `src/` holds the logic and is verified with Verus: each
public function states in `ensures` what it returns or changes, over
mathematical models (`Seq`, `Set`, `Map`) of its types, and the properties
that span several calls are public proof functions whose names begin with
`law_`.

- `state.rs` — connected users, rooms, the per-user rate limiter and the
  detection of repeated message ids.
- `auth.rs` — registration, login, session tokens and their expiry.
- `chat_core.rs` — what each request does: the server answers with a plan of
  effects (messages to send, records to store, counters to raise) or with a
  question for the database, and is called again with the answer.
- `effects.rs`, `replies.rs`, `database.rs` — the effects, the replies built
  from database rows, and the questions and writes exchanged with the
  database.
- `accounts.rs`, `messaging.rs` — the account and direct-message use cases
  over repositories that callers implement.
- `client.rs`, `tui.rs` — the clients: reading a typed line as a command,
  the request it sends, retrying unconfirmed direct messages, and the state
  and screen texts of the terminal client.
- `files.rs` — the file server's decisions: upload paths and media types,
  download tokens and download answers.
- `collections.rs`, `clock.rs`, `metrics.rs`, `text.rs` — the outside
  collections, clocks, metrics and string operations, behind small trusted
  items whose contracts say what the outside code does. Messages and
  sessions are dated by the wall clock; the rate limiter and the detection
  of repeated message ids count on the monotonic clock.

`app/` is the server program: sockets, the SQLite database, configuration
from the environment and the metrics endpoint. It runs the library's plans.
It also holds the in-memory session stores shared between tasks and the
SQLite user stores, whose decisions (which sessions to close, how a failed
insert reads as an account error) come from the library.
