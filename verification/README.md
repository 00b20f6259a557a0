# Codex time-zone launcher

A native Windows launcher that starts the Codex/ChatGPT desktop client with
a validated IANA `TZ` variable in the new process's environment only. It
never changes the system time zone and never terminates a running client.

## Layout

- `src/` is the verified library (Verus). It holds the decisions of the
  launcher with their contracts and proofs: zone validation against the
  tz database of `chrono-tz`, the sorted zone list and the picker's search,
  the settings checks and the migration from the older format, the process
  checks that keep a running client from being started twice, the choice
  of the client executable, the Store-package environment block, debugger
  command line and resumer arguments, the activation handshake as a state
  machine, the location reply and transport failures, and the window's
  command, status and styling decisions.
- `app/` is the Windows program around it: file I/O and JSON, the Win32
  window, WinHTTP, the process snapshot, COM activation and threads. It
  performs each outside step and hands the results to the library.
- `tests/` runs the library on concrete values.
