# hft_backtest

A tick-data backtesting engine for XAU/USD whose decision logic is verified
with Verus.

- `src/` is the verified library:
  - `numparse` reads decimal `i64` values as `i64::from_str` does;
  - `calendar` gives the UTC range and calendar day of millisecond timestamps
    and reads `YYYY-MM-DD` dates, through `chrono`;
  - `files` picks the `*.csv` entries of a directory and sorts them;
  - `ingest` holds the optional date window, the day on which each tick row
    is written with the name of that day's file, and the per-day row counts;
  - `engine` holds tick timestamps, strategy limits, the bounded price history
    and the position state machines of the scalping and mean-reversion
    strategies, and `FileSession`, which runs a strategy over the ticks of one
    file and closes the position at its end, with laws on the trade log they
    produce.
- `app/` is the command-line program: file and directory I/O, CSV, YAML and
  JSON, logging, and all floating-point arithmetic on prices, fees and
  statistics, which it reports to the library as the outcome of each price
  comparison.
- `tests/` exercises the library on concrete values.
