# platformer_controller

The decision logic of a Bevy/Avian 2D platformer character controller,
verified with Verus.

- `src/` — the verified library: wall sides (`wall`), keyboard and gamepad
  input mapping (`input`), ground / wall / ledge sensing (`sensing`), the
  per-frame movement decision (`movement`: each message's effect, whether a
  jump is buffered after the frame's messages, and the jump outcome; the
  floating-point buffer refill and run-down are applied by `app/`),
  the movement-gym level and player silhouette (`layout`), and laws that
  relate them (`laws`).
- `app/` — the Bevy program: components, bundles, plugin and systems. Each
  system reads the ECS world into plain readings, calls the library for the
  decision, and applies it to the floating-point physics values.
- `tests/` — tests of the library on concrete values.
