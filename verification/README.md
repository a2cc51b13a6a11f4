# starcolorkeyboard

The logic of an on-screen keyboard for Wayland compositors, verified with Verus.

- `src/carioex/` — the first keyboard surface: layout names, the surface size,
  key hit-testing, and the geometry of the main keyboard's keys.
- `src/starcolorkeyboard/` — the second surface: hit-testing with the
  minimize/close buttons, modifier sets, the input state machine (presses,
  releases, modifier latching, minimize and close), and which compositor
  globals are bound at which version.
- `src/outputs.rs`, `src/shm.rs` — display sizes reported by the compositor and
  the layout of the shared-memory buffer.
- `src/arith.rs` — `i32` division rounding toward zero.
- `app/` — the Wayland client around the library: connection, event dispatch,
  drawing with cairo/pango, the virtual keyboard.
