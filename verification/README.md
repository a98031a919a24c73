# chat_app

A terminal chat: a server that keeps track of who is connected, and clients
that show rooms, direct conversations and file transfers. The decisions of
both sides are a Verus-verified library; the programs around it do the I/O.

Layout:

- `src/` — the verified library.
  - `wire.rs`: length-prefixed frames; `text.rs`: the string functions the
    rest relies on (trimming, words, lines, numbers).
  - `client.rs`, `membership.rs`, `session.rs`, `room_updates.rs`,
    `routing.rs`: the client's state and how each server message changes it.
  - `events.rs`, `auth.rs`, `room_creator.rs`, `file_selector.rs`: what each
    key does on each screen, and the forms behind them.
  - `render.rs`, `lines.rs`: what the screens show, as lines of spans.
  - `streams.rs`, `images.rs`: receiving and sending files in chunks, and
    images drawn in characters.
  - `manager.rs`, `connection.rs`: the server's record of connected users and
    the login protocol of a connection.
  - `console.rs`, `pty.rs`, `bt.rs`, `threads.rs`: the line client's
    commands and how it counts the files it receives, the browser terminal's
    opening message, error locations and thread reports.
  - `laws.rs`: properties that relate several operations.
- `tests/` — tests of the library on concrete values.
- `app/` — the programs (`server`, `client`, `console`, `pty`): networking,
  the terminal, files and threads.
