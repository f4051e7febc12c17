# compositor_developer

The verified core of a compositor's developer tooling: its runtime configuration and GPU
routing, live preferences, experiment flags, diagnostics counters, and the logic of the
stress-test harnesses (wire protocols, controllers, subjects, drawing, portal checks,
session store).

## Layout

- `src/` — the library, verified with Verus. Each module states its operations as
  contracts over mathematical models and proves them:
  - `config`, `router`, `mode`, `experimental`, `preference`, `stats` — settings
    validation, desugaring of the two GPU routing variants, `mode` token folding,
    experiment flags, output profiles, counters and the present-rate meter;
  - `layer_protocol`, `window_protocol`, `x11_protocol` — the harness wire protocols,
    with round-trip laws (`parse(encode(c)) == c`);
  - `layer_controller`, `layer_layout`, `window_controller`, `window_layout` —
    controller parameters, button actions, both controllers' button layouts (inside the
    window, pairwise disjoint, every button's command round-trips) and the subject
    command lines;
  - `layer_subject`, `layer_overlay`, `window_subject`, `window_overlay`,
    `x11_subject`, `x11_icon`, `x11_paint` — the subjects' state machines (state and
    command to next state and reaction), their overlay text, frame plans, window
    specs, icon images and paint plans;
  - `x11_scenario` — the X11 harness's scripted scenarios, every step of which is
    proved to round-trip through the wire protocol;
  - `canvas`, `font`, `harness`, `tools` — a software ARGB canvas whose drawing
    operations are specified pixel by pixel, a bitmap font, shared harness drawing and
    the pen/touch viewers' colours, trails, ink and input toggle;
  - `portal`, `portal_checks`, `portal_config`, `session`, `diag`, `dnd` — the portal
    checker's decisions and report lines, the session store, log lines and drag tabs;
  - `text` — character-level building blocks shared by the above.
- `tests/` — executable tests of the library.
- `app/` — plain Rust around the library: file and environment I/O, JSON (serde)
  copies of the settings and preferences types, process-global registries, printing.

Floating-point values are held as their bit patterns in the library and converted in
`app/`.
