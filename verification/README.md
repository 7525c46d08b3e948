# demokit

A collection of small Rust programs — GUI examples, an actor, a QUIC file
server, error types, procedural macros — whose logic is kept here as a
library verified with Verus, apart from the windows, sockets and files that
the programs drive.

- `src/` — the verified library, one module per program: the to-do list's
  state machine and saves (`todos`), the text editor (`editor`), the layout
  gallery (`layout`), the stopwatch (`stopwatch`), the event monitor
  (`events_log`), the numeric input component (`numeric_input`), the QUIC
  server's retry tokens and partial responses (`quic_server`), and smaller
  ones; `decimal` and `text` hold the number formatting, number parsing and
  string comparison that they share.
- `tests/` — tests of the library on concrete values.
- `app/` — the programs that run without a window: each is chosen by name
  on the command line (`demokit todos add ...`, `demokit actor`, ...).
