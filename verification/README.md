# tracker_tui

A terminal step sequencer: a tracker grid whose steps drive a Legato synth
graph, with an oscilloscope and a spectrum of the audio output.

- `src/` is the library, verified with Verus: the tracker grid and its edits
  (`tracker`), the columns (`column`), note names (`pitch`), what each grid row
  shows (`display`), the key bindings (`controls`), the visualiser modes
  (`visual`), the oscilloscope trigger search (`trigger`), the window of recent
  samples (`ring`), and the ratatui table state the grid carries (`table`).
  Steps are held on the grids their edits quantise to: MIDI note numbers,
  128 velocity levels, and gate lengths in 32nds.
- `app/` is the program: terminal I/O, drawing with ratatui, the Legato audio
  runtime, and the floating-point signal processing (frequency conversion,
  FFT, spline smoothing). `cargo run -- scope` starts the bare oscilloscope.
