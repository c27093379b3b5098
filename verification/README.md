# rea_rs

The value-level core of a toolkit for REAPER extensions, verified with Verus:
the raw take-MIDI buffer format (reading it into events, filtering events by
kind, pairing notes, joining and splitting CC curve data, writing events
back), MIDI message types, text and notation meta-messages, and the small
value types and raw encodings of track, send, take, item, render and key
settings, and signed offsets into media sources.

Layout:

- `src/` — the verified library. `midi_*` modules hold the MIDI format and its
  proofs; the other modules hold settings types and their raw values.
- `tests/` — tests of the library on concrete buffers and values.
- `app/` — the floating-point conversions (volume, pan, pitch-bend and curve
  tension as floats, `f64` values as REAPER hands them over), which the
  verifier does not reason about, and the conversions of source offsets to
  and from `chrono::TimeDelta`.
