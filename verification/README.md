# campuslink

The decision logic of a campus computer-lab system, written in Verus with its
contracts proved.

A student machine runs an agent. It registers with the teacher server,
sends heartbeats over a WebSocket, follows mode switches (teaching, exam,
open lab) and lock/unlock commands, runs an admission check-in window, keeps
watch over guarded processes and reports inspections of its hardware. The
teacher server answers with a small JSON protocol and exports its records as
CSV and spreadsheet files.

## Layout

- `src/` — the verified library.
  - `agent/` — configuration, the mode and lock state machine, command
    handling, the heartbeat/reconnect bookkeeping, admission check-in,
    registration, hardware inspection, the process guard and server discovery.
  - `checkin/` — the check-in window as a state machine over its stages and
    worker results, and the local inspection report.
  - `lock.rs` — the lock screen: password attempts and when it may close.
  - `keyhook.rs` — which keys the lock and check-in screens swallow.
  - `crypto.rs` — key derivation and AES-GCM sealing of the stored
    configuration and of WebSocket messages.
  - `server/` — protocol messages, request validation, settings, import rules,
    base64/hex codecs, CSV and spreadsheet export.
  - `text.rs` — string specifications and helpers shared by the rest.
- `tests/` — tests run against the compiled library.
- `app/` — the programs around it: the student agent (configuration file,
  network calls, child processes, and the async loops that carry out what
  the library decides), its process guard, the check-in and lock-screen
  programs the agent launches (as terminal prompts: their full-screen
  windows are not built here), and the teacher server's discovery listener.
  The teacher server's HTTP and WebSocket service is not here: it rests on
  its database and domain modules, whose sources are not part of this
  project; the library holds its protocol, validation, import and export
  rules.
