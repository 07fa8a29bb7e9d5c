# midas_app

The decision-making core of the Hand of Midas desktop trading
workspace, verified with Verus, and a thin headless shell around it.

- `src/` — the verified library: the order blotter and its laws
  (`blotter`, `blotter_laws`), broker and ticker message parsing for the
  devloop harness (`broker_inject`, `ticker_inject`, `json`), harness
  command planning and replies (`dispatch`, `devloop`, `idle`), order
  form rules and persisted panel state (`order_panel`,
  `order_panel_state`), the per-ticker level store (`level_store`),
  link propagation (`link`), key combos (`keys`), blotter columns
  (`columns`), persistence bookkeeping (`persist`), the simulator
  child's control plane (`sim_child`), layout and chart policies
  (`layout`, `session`), and the data-provider registry (`registry`).
- `app/` — ordinary Rust: the event log file, the idle tracker, the
  `redb` order-history store, the simulator process, float arithmetic
  of the order form and the blotter grid, and the headless harness
  listener.
- `tests/` — tests of the library.
