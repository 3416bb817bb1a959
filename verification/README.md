# Longwatch for Codex

Longwatch stays with one Codex task through overload, lost connections,
restarts and sleep, and never has two turns under way at a time.

* `src/` is the library: the state machine of the queue, the controller that
  drives it, the rules by which replies and errors are classified, the protocol
  of the app-server, the reading of session files, the migration of settings,
  the reports and the rules of the window and of the desktop.  Its functions
  carry contracts that Verus proves, but for the few that call other crates or
  the standard library and are believed, as the last paragraph says;
  `src/runtime/laws.rs`, `src/runtime/recovery.rs` and the `pub proof fn`s of the
  other modules state what holds across functions.
* `tests/` runs the library on concrete values.
* `app/` is the program around it: processes, files, sockets of the desktop,
  clocks, random delays and the window.  The controller asks for one action at a
  time (`QueueRuntime::advance`); `app/driver.rs` performs it and hands back what
  came of it.  The window, `app/ui.rs`, is part of builds that set the feature
  `desktop` and supply `gpui` and `tdesign-gpui`; without it the program goes on
  with a task that was left under way.

Points in time are integers: nanoseconds since the start of 1970 on the wall
clock, nanoseconds since a fixed start on the monotonic one.

What the library takes from other crates, and how far it relies on them, stands
above each function marked `external_body` and each `assume_specification`:
JSON from `serde_json`, SHA-256 from `sha2`, identifiers from `uuid`, and a few
conversions of text from the standard library.
