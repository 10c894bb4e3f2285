//! Verified core of a tick-data backtesting engine for XAU/USD.
//!
//! The library holds the integer and decision logic of the engine: parsing of
//! tick timestamps, the calendar day of a UTC millisecond timestamp, the date
//! window of the ingestion step, the selection and order of dataset files, the
//! bounded price history, and the position state machines of the scalping and
//! mean-reversion strategies.  Prices, fees and statistics are floating-point
//! values and are computed by the program around the library, which hands the
//! outcome of each price comparison to the strategy functions here.

pub mod calendar;
pub mod engine;
pub mod files;
pub mod ingest;
pub mod numparse;
