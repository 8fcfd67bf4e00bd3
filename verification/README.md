# rust_demos

Three animated teaching demos (zero-cost abstractions, the type system,
unsafe Rust), split into a verified core and a terminal front end.

- `src/` — the Verus-verified library: the benchmark computations and the
  law that the iterator chain and the manual loop compute the same sum, the
  demos' state machines (ticks, steps, highlights, pause, speed, reset) over
  integer nanosecond timers, the demos' text, and what each pane shows
  (highlighted and flagged lines, scanned values, the pointer walk, chart
  maxima, titles and labels).
- `app/` — ordinary Rust: laying out and colouring the panes with ratatui,
  the canvas diagrams, number formatting, the floating-point helpers
  (timing ratio, step length in seconds, unsafe-line percentage) and the
  `Demo` interface the application drives.
- `tests/` — tests of the library.
