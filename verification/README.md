# gravel_rs

Weight-based espresso shot control for a Bookoo Themis Mini scale, as a
verified library. The library takes readings, commands and ticks and decides
what the controller does; every decision is proved against its specification
with Verus.

Weights are centigrams (the scale's resolution), flows centigrams per second,
and the caller supplies the time in milliseconds.

## Layout

- `src/protocol.rs` — the scale's notification frames and checksums.
- `src/brewing/` — the brewing state machine (killswitch, connectivity,
  brewing, settling), auto-tare, overshoot learning, and its laws.
- `src/controller.rs` — the controller: how events, readings, web commands
  and state-machine outputs change the shared state and which hardware and
  event-bus actions they ask for.
- `src/state.rs`, `src/safety.rs` — the shared state with its numbered,
  bounded log; the safety checks.
- `src/scales/` — detectors of scale brands, scanners, inferred scale events.
- `src/ble.rs`, `src/ble_bindings.rs`, `src/bookoo_scale.rs` — BLE data,
  advertisement parsing, service and characteristic selection, discovery and
  connection decisions.
- `src/server/`, `src/hardware/`, `src/wifi*`, `src/nvs_storage.rs` — web
  messages, display layout, relay bookkeeping, Wi-Fi start-up, stored
  settings and statistics.
- `src/bounded.rs` — the `heapless` vectors the library keeps, behind
  trusted wrappers.
- `app/` — a host runner that feeds the controller from standard input and
  carries out its actions; JSON forms of the web messages.
