# opencontroller

A gamepad becomes an input device for a small computer: button presses and stick
positions are turned into keyboard events for the UI, into RC channel values for
ExpressLRS links, and into payloads for custom protocols; MQTT messages can be
composed, sent and received; settings are kept per session on disk.

The library (`src/`) holds the logic, verified with Verus:

- `controller`: pairing button presses with releases across processing cycles,
  and the physical-to-logical button mapping.
- `mapping`: keyboard, ELRS and custom strategies, the mapping engine lifecycle,
  rate limiting, and the manager's decisions (configuration fallback, validation,
  active engines, keyboard repeat filtering).
- `mqtt`: settings, messages, broker address parsing, subscription changes.
- `persistence`: the configuration store and its actions, session paths and the
  known-session registry.
- `ui`: the state and decisions of each menu.

`app/` runs it: gamepad input, analog (floating-point) processing, tasks and
channels, MQTT networking, files, and the egui window.
