# ampmeter

An LV2 amplifier plugin with input and output level meters and a small
user interface, with its control logic verified by Verus.

- `src/` — the verified library:
  - `ports.rs`: the plugin's ports and their indices, and the cache of the
    connection addresses that the host hands over one by one;
  - `control.rs`: the handshake with the user interface (open/close messages
    and the one-time report of the sample rate);
  - `button.rs`, `root_widget.rs`: the state of the interface's toggle button
    and of its background widget (focus moves with the tab key);
  - `ui_ports.rs`: the interface's view of the port indices.
- `tests/` — tests of the library on concrete values.
- `app/` — the plugin entry point and audio processing on top of lv2-core and
  lv2-atom, and the pugl widgets that draw the button and the background.
