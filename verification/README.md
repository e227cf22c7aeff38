# pv-hub (verified core)

pv-hub turns free weather/solar APIs into a virtual solarimeter for one
photovoltaic site and serves the values over Modbus TCP, a JSON/SSE HTTP API
and Home Assistant MQTT discovery.

`src/` is the library, checked by Verus:

- `catalog.rs` — the metric catalog (ids, units, Modbus placement) and its
  laws: one line per metric, no shared register word, unique ids, a
  118-word bank.
- `model.rs` — the `Metric` enum and the provider health transitions.
- `config.rs` — reading every non-floating-point setting from the
  environment: defaults, flags, model choices, decimal integers with the
  errors `str::parse` reports.
- `sinks/modbus` — the register bank layout, word order, MBAP framing and
  the FC03/FC04 request handler, with the law that a read returns what the
  bank stores.
- `sinks/homeassistant` — MQTT topics, unit/class mapping and discovery
  documents; the reconnection policy.
- `sinks/http` — content types of dashboard assets.
- `scheduler.rs` — the weather loop's retry policy.

`app/` is the service around it: sockets, HTTP, MQTT, the Open-Meteo client,
and the floating-point solar model (position, transposition, clear-sky,
cell temperature), which Verus does not check.
