# prop_hunt

The rules of a prop-hunt game, verified with Verus, and the Bevy game around
them.

- `src/` is the verified library: collision layers (`physics`), the jump
  controller (`movement`), timers (`time`) and tween clocks (`tween`), the
  connection and pause-menu state machines (`network`, `pause`), the camera
  switch (`camera`), players and input gating (`player`), morph arbitration
  and targeting (`morphing`), the crosshair ring (`crosshair`) and the debug
  texture pattern (`texture`). Time is counted in nanoseconds.
- `app/` is the Bevy application: systems, scenes, rendering, networking and
  everything that computes with floating-point numbers. It hands the library
  plain values and applies what comes back.
- `tests/` runs the library on concrete values.
