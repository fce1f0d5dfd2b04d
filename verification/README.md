# fake-codex-app-server

A scripted stand-in for the Codex app server, for testing the clients of one. It
speaks newline-delimited JSON-RPC on its standard streams and plays faults on
request: it can refuse, forget, contradict or crash around the second turn of a
session, and more. `src/options.rs` lists the switches.

* `src/` is the server as a verified library: a session takes a line and answers
  with the effects to perform and whether to go on. `src/json.rs` is the boundary
  with `serde_json` and holds everything that is believed rather than proved.
  `src/laws/` proves what holds of the server as a whole.
* `app/` is the program: it reads lines and performs effects.
* `tests/` runs the library.
