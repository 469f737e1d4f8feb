# avio editor

The editing core of a non-linear video editor, verified with Verus, and the desktop
application around it.

- `src/` is the library. It holds the timeline and its edits, undo and redo, the effect
  chain of every clip, the export plan and its queue, the project and preset files, snapping
  and trimming, and the transport keys. Every function states what it returns or changes,
  and public proof functions state what holds across functions.
- `tests/` runs the library on concrete values.
- `app/` is the window: drawing with egui, decoding and rendering with avio, sound with cpal,
  and JSON files with serde.

Floating-point values pass through the library as bit patterns (`F32`, `F64`); it compares
them and hands them on. Arithmetic on them is done in `app/`, which hands whole pixels and
times to the library.

Players, renderers and other background work run in `app/`. The library decides what they
are told: a method that changes the state says in its result what is to be done outside.
