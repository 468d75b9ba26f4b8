# tui_service

Terminal UI for exploring the ib-platform's portfolio and market state, with its
interaction logic verified in Verus.

- `src/` — the verified library: redraw flags, modes, tabs, scrollable tables, toasts,
  the command palette, configuration (shared file, environment, in-app overrides),
  the circuit breaker, the key maps and the action handlers that drive the
  application state, the hint and status bar contents, mouse routing, the Orders and
  Charts search lists, the Positions rows (flat and combo views), the screen chrome
  layout, candlestick scrolling, the field/list sub-focus of the Orders filter and the
  Charts search (kept by `ratatui-interact`), option-symbol parsing, the market
  session calendar and the live-source choice.
  Outside work (sending requests, storing credentials, reading the clock) is returned
  as `Effect` values or taken as arguments.
- `app/` — the program: reads the shared config file and the environment, runs the
  terminal loop with ratatui, converts terminal events, carries out effects and draws
  the state.
- `tests/` — tests of the library through its public API.
