# ardop_interface

An interface to the ARDOP TNC (the Amateur Radio Digital Open Protocol
soundcard modem), verified with Verus.

The TNC is driven over two TCP ports: a control port that takes text
commands and reports events, and a data port that carries length-framed
payloads. This crate renders the commands, parses what the TNC sends,
tracks connection state, and makes the decisions of the asynchronous
driver; the I/O around them (sockets, timers, the async plumbing) is in
`app/`. Public functions carry contracts over mathematical models, and
the proof functions state the laws the library keeps. Where a result
depends on the clock or on a user's implementation of a trait, the
contract says what holds whatever it is.

## Layout

- `src/` — the verified library
  - `protocol/` — command verbs and protocol modes (`constants`), command
    rendering (`command`), and the grammar of control-port lines
    (`response`)
  - `framing/` — byte buffers of a framed connection (`framer`), control
    framing (`control`) and data framing (`data`)
  - `tncio/` — data-port frames (`data`), the connection event parser
    (`connevent`), the merged data and event stream (`dataevent`), the
    control-port queues (`controlstream`), the busy-channel detector
    (`busylock`), and the decisions of the driver (`asynctnc`)
  - `arq/`, `tnc/` — connection information, failure reasons, errors,
    discovered peers and ping replies
  - `commandchain` — commands executed in sequence
  - `text`, `buffers`, `clock` — character classes, byte buffers and the
    monotonic clock, with the calls into `std`, `bytes` and `regex-syntax`
- `tests/` — tests of the library
- `app/` — the asynchronous I/O around it (`async-std`, `futures`)

Run `verus` on `src/lib.rs` to check the proofs.
