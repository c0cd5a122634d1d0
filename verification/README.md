# doser_core

A gravimetric dosing engine for an auger-driven doser: a stepper motor feeds
material onto an HX711 load cell until a target weight is reached, and the
engine decides at every sample whether to drive, slow down, stop early, settle,
complete or abort.

The library (`src/`) is verified with Verus. The control loop works in integer
centigrams; every decision of a dosing step is a transition of
`control::DoserCore` whose contract is a spec function (`control::spec_step`,
`spec_filter`, `spec_predict`, `spec_estop`). The caller performs the scale and
motor I/O that a transition asks for and feeds back what the hardware reported.

Modules:

- `control`, `control_laws` — the controller and the properties that every
  iteration keeps (safety aborts, settle detection, E-stop latch, filters).
- `builder` — configuration checks and construction of the controller.
- `filter`, `fixed_point`, `util` — median / moving-average windows, rounding
  and saturating integer helpers, sampling periods.
- `runner` — the sampler-mode watchdogs (stall, run-time cap, shutdown).
- `settings`, `calibration` — validation of a configuration file and of a
  calibration table.
- `report`, `error` — error texts, operator explanations and exit codes.
- `monitor`, `monitor_state` — the live-weight monitor's state, routing and
  the LAN check on state-changing requests.
- `cli`, `selfcheck`, `strategy`, `status`, `logger`, `mocks`, `config`.

`app/` is the command-line program around the library: argument parsing,
TOML/CSV loading, the floating-point boundary (grams, least-squares fitting,
EMA smoothing), threads, the HTTP server, real-time scheduling and tracing.
`tests/` exercises the library on concrete values.
