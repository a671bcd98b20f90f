# limux_ime

Verified input-method logic for a terminal pane that runs two GTK
input-method contexts side by side (a primary multi-context and a
simple-compose fallback).

* `src/` — the library, verified with Verus: compose-key detection and
  routing (`routing`), the step machine that runs one keypress through both
  contexts (`key_filter`), the per-pane state machine for preedit / commit /
  forward decisions (`state`), the preedit display plan (`surface`) and the
  C-string compatibility check (`text`). Each module states its laws as
  public proof functions next to the operations they are about.
* `tests/` — the unit tests, run against the compiled library.
* `app/` — the GTK and libghostty wiring that performs the library's
  decisions: signal handlers, `filter_keypress` calls, FFI.
