# quant_engine

The decision-making core of a quantitative trading engine, written in Verus: the
functions in `src/` are verified by Verus, and nearly all of them state what they
return or change in a contract; the trusted wrappers around outside crates are the
only functions whose contracts are believed rather than proved.

## Layout

- `src/decimal.rs` — `Dec`, a decimal number backed by `rust_decimal`; the crate's
  arithmetic is reached through a few trusted wrappers, everything above them is proved.
- `src/engine/` — the trading engine: account and strategy fund pools, pre- and
  post-trade risk checks, position and PnL bookkeeping, the simulated exchange, the
  volatility channel and its check table, the pipeline with its checkpoints, and the
  memory backup's paths, trimming and file rotation.
- `src/f_engine/` — the event-driven engine: engine and symbol state, the circuit
  breaker, fund pools with freeze/confirm/rollback, triggers, the order lifecycle, the
  pipeline form, the single-loop indicator engine (EMA/RSI) and the interface records.
- `src/text.rs`, `src/keyed.rs`, `src/clock.rs`, `src/console.rs` — text building,
  name-keyed lists read as maps, the wall clock and console output.
- `app/` — the runtime around the library: Tokio event loops and task supervision,
  JSON/CSV files on disk, Telegram over HTTP, `tracing` logging, and conversions to
  and from `rust_decimal`.
- `tests/` — tests of the library, run against the compiled crate.
