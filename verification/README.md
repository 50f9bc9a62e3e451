# cloudstaff-mock-backend

A client adapter for CloudStaff mock sessions, written in Rust and proved with
Verus.

A session speaks JSON, one message per line, over a Unix socket. The adapter joins
a session, checks every message of the peer, turns the session's numbered events
into the notifications that a terminal renderer follows, and submits the user's
turns. What the protocol does not allow is refused, and the session ends.

- `src/` is the verified library. It decides and does no input or output.
- `app/` is a small line client around it: the socket, the worker task, timeouts,
  and the encoding and decoding of typed values.
- `tests/` runs the library on concrete messages.

Where to start reading:

| Module | What it holds |
| --- | --- |
| `json`, `text`, `thread_id` | The calls into `serde_json`, `std` and `uuid`, with what is believed of them |
| `wire` | Lines, required fields, reported errors |
| `live_turn`, `mapper` | From session events to notifications |
| `renderer`, `independence`, `laws` | What holds of a session as a whole |
| `snapshot`, `session`, `attach` | Joining a session, and its history |
| `command`, `worker`, `shutdown`, `backend` | Requests, the worker's decisions and its end, the common face |
