# indicators

Technical-analysis indicators and an eleven-layer trading-signal engine over
OHLCV candles.

- `src/` is the verified library. It holds everything that decides rather than
  measures: parameter parsing and the indicator registry, each indicator's
  parameters, output keys and warm-up lengths, the layer votes and how the
  signal modes combine them, the streak filter that confirms a signal, the
  market-structure break rules, confluence scoring and grading, volatility
  bands, market-regime strategies, calendar arithmetic and session days, and
  the lint report's diagnostic counting. Every public function carries a
  `requires`/`ensures` contract, and the laws that relate functions are public
  proof functions.
- `app/` is ordinary Rust around it: the floating-point series arithmetic of
  every indicator and layer, the serde-enabled configuration and domain types,
  the process-wide registry, and the lint report tool's process and file I/O.
- `tests/` exercises the library on concrete values.
