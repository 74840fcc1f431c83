# brail_recorder

The core of the Brail screen recorder for Windows, written in Verus. The
functions in `src/` carry contracts that Verus proves; the few small
wrappers marked `external_body` (around `String::push`, `str::to_uppercase`,
`str::to_lowercase`, chrono and serde_json) are trusted, not proved, and
each says in its doc comment what it claims of the call it makes.

- `src/` — the verified library: recording, streaming and replay state
  machines, encoder argument lists, stream health, hardware capability
  rules, default settings, file naming, crash-recovery markers, redaction of
  stream keys, and the text routines they rest on (`text.rs`).
- `tests/` — tests of the library on concrete values.
- `app/` — the desktop backend around the library: Tauri commands, Win32
  queries, WASAPI and Windows Graphics Capture, FFmpeg processes and file
  I/O. It is ordinary Rust and builds for Windows only.

Time enters the library as readings of a monotonic clock in nanoseconds,
and volumes as the bit patterns of their 32-bit float gains; the
application reads the clock and converts the floats.
