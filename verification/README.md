# rustdesk

The decisions of a remote desktop client and of its service, written in Rust and
proved with Verus.

- `src/` is the library. Every function in it has a contract that Verus checks:
  the relay handshake and the requests that select a relay, downloads, the messages
  between the processes of one machine, the clipboard, cursors, the privileged
  helper on macOS with its move of an installation, updates that run without asking,
  the installer's unpacking, and the smaller rules around them.
- `tests/` runs the library on concrete values.
- `app/` is the program around the library: files, sockets, processes, the network
  and the clocks. It asks the library what to do and reports what came of it.

Where work outside the program alternates with decisions, the library holds a state
machine. The program performs the step that it is told and hands the outcome back
(`download_job`, `helper::migration`, `macos::root_update`, `macos::plists`,
`terminal_helper`).

Calls into other crates, and into parts of the standard library that have no
contract, stand in small functions whose doc comments say what is taken on trust.
