# trackball_vial

Verified logic of a trackball keyboard's Vial-configurable settings and of its
auto-mouse layer.

- `src/vial_settings.rs`: the settings store (one byte per setting), its
  sanitization, the Vial get/set protocol by quantum-settings id, and the
  accessors the trackball code reads (axis rotation, CPI scaling, divisors,
  flags).
- `src/auto_mouse.rs`: the auto-mouse state machine. Joystick events, timer
  ticks and controller events go in; the next state and the actions to perform
  (layer switches, mouse reports, arrow-key taps) come out.
- `src/settings_laws.rs`, `src/auto_mouse_laws.rs`: laws relating the
  operations (read after write, sanitization, layer bookkeeping, button
  toggling, mode keys, scroll remainders).
- `app/`: the firmware side: the clock, HID report types, the persisted form of
  the settings, and the async loops that feed events in and perform actions.
