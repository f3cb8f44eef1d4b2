# OpenRec

A screen recorder for Wayland desktops with a non-destructive editor
(trims, zoom regions, speed segments, annotations) and MP4/GIF export.

## Layout

- `src/` — the library, verified with Verus: application and recording
  state machines, editor state and undo/redo history, speed segments and
  playback stretches, zoom timing and cursor-track lookup, timeline
  markers and pointer handling, export frame schedule and the
  crop-and-upscale of RGBA frames, `ffmpeg` argument lists, hotkey
  parsing, settings defaults and the small text formats (clock, time
  markers, file names). Each public function states in its `ensures` what
  it computes or, where the result comes from the environment (per-user
  directories, clock, random ids), what holds of every outcome;
  `ShaderPipeline::new` builds a value with no state. The properties
  that span several calls are public proof
  functions named `law_*`.
- `app/` — the program around it: iced windows and drawing, PipeWire and
  portal sessions, `ffmpeg` subprocesses, JSON files, the tray and the
  floating-point parts of zoom, speed and timeline geometry.
- `tests/` — tests of the library.

Values that the program keeps as `f32`/`f64` (speeds, zoom levels, focus
points, annotation and cursor positions) are carried through the library as
their IEEE-754 bit patterns.
