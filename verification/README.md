# ED Compass

A spectrogram anomaly detector and audio direction finder for Elite
Dangerous. This crate is its verified core: the rules the application runs
on, each stated as a contract and proved with Verus.

## Layout

- `src/audio/` — sample formats and speaker layouts, the endpoint-selection
  policy (never a microphone in place of the game's output), and the
  bookkeeping that keeps the analysis clock honest across dropped packets and
  idle endpoints.
- `src/capture_writer.rs` — when a detection may reach the disk (threshold,
  cooldown, hourly cap) and what its files are called.
- `src/journal.rs`, `src/journal_tail.rs` — the game state the Elite
  Dangerous journal describes, the records kept for correlation, and which
  bytes of a growing journal a poll may consume.
- `src/app.rs` — the runtime's decisions: the status indicator, reconnects,
  detector edges that keep audio, queued captures.
- `src/config.rs` — the settings rules and the order they are checked in.
- `src/ui/` — the small decisions the window is built from: renderer names,
  overlay visibility, the confidence ladder of the overlay lamps, row medians.
- `app/` — the program around the library: command line, settings file,
  journal on disk, logging.
- `tests/` — the behaviour, on concrete values.
