# rewinder

The decision core of a rolling-replay screen recorder for macOS, written in
Verus: every function under `src/` carries a contract that Verus proves.

- `src/` — the verified library: the capture-log markers and parsers, the
  ffmpeg command line, the quality-profile ladder and the restart policy
  that steps it, the recovery loop's decisions, save blocking and the
  pending-save queue, the choice of the replay window among the live
  segments, the in-memory packet buffers and the replay snapshot, the
  permission and lifecycle rules, and the engine state each step leaves.
  Laws that span functions are public proof functions next to them.
- `tests/` — concrete scenarios run against the compiled library.
- `app/` — the shell around it: files, processes, the clock, fractional
  measurements, serialisable payloads, and the loops that feed the
  library's decisions.
