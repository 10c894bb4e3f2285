//! Decisions of the backtesting engine: tick timestamps, strategy limits, the
//! bounded price history, and the position state machines of the scalping and
//! mean-reversion strategies.
//!
//! Prices are floating-point values and stay with the caller, which reports
//! the outcome of each price comparison in a `ScalpingSignals` or
//! `MeanReversionSignals` value.  This module decides from those outcomes and
//! from the integer timestamps when a position is opened or closed.

use std::collections::VecDeque;
use vstd::prelude::*;
use vstd::string::StringSliceAdditionalSpecFns;
use crate::calendar::{utc_millis_in_range, utc_timestamp_valid};
use crate::numparse::{parse_i64, spec_parse_i64};

verus! {

/// The side of a trade.
#[derive(Debug, Clone, Copy, PartialEq, Eq, Structural)]
pub enum TradeSide {
    Buy,
    Sell,
}

/// The strategies that the engine runs, chosen by name.
#[derive(Debug, Clone, Copy, PartialEq, Eq, Structural)]
pub enum StrategyKind {
    /// `scalping`
    Scalping,
    /// `mean_reversion`
    MeanReversion,
    /// Any other name: the engine skips the ticks of the file.
    Unknown,
}

/// The bytes of the name `scalping`.
pub open spec fn scalping_name() -> Seq<u8> {
    seq![115u8, 99u8, 97u8, 108u8, 112u8, 105u8, 110u8, 103u8]
}

/// The bytes of the name `mean_reversion`.
pub open spec fn mean_reversion_name() -> Seq<u8> {
    seq![109u8, 101u8, 97u8, 110u8, 95u8, 114u8, 101u8, 118u8, 101u8, 114u8, 115u8, 105u8, 111u8, 110u8]
}

/// The strategy that a name selects.
pub open spec fn spec_strategy_kind(name: Seq<u8>) -> StrategyKind {
    if name == scalping_name() {
        StrategyKind::Scalping
    } else if name == mean_reversion_name() {
        StrategyKind::MeanReversion
    } else {
        StrategyKind::Unknown
    }
}

/// Whether `a` holds the same bytes as `b`.
fn bytes_equal(a: &[u8], b: &Vec<u8>) -> (r: bool)
    ensures
        r == (a@ == b@),
{
    if a.len() != b.len() {
        return false;
    }
    let mut i: usize = 0;
    while i < a.len()
        invariant
            a@.len() == b@.len(),
            i <= a@.len(),
            forall|k: int| 0 <= k < i ==> a@[k] == b@[k],
        decreases a@.len() - i,
    {
        if a[i] != b[i] {
            return false;
        }
        i = i + 1;
    }
    assert(a@ =~= b@);
    true
}

impl StrategyKind {
    /// The strategy named by a configuration's `strategy_type`.
    pub fn from_name(name: &str) -> (r: StrategyKind)
        ensures
            r == spec_strategy_kind(name.spec_bytes()),
    {
        let bytes = name.as_bytes();
        let scalping: Vec<u8> = vec![115u8, 99u8, 97u8, 108u8, 112u8, 105u8, 110u8, 103u8];
        let mean_reversion: Vec<u8> = vec![109u8, 101u8, 97u8, 110u8, 95u8, 114u8, 101u8, 118u8, 101u8, 114u8, 115u8, 105u8, 111u8, 110u8];
        assert(scalping@ =~= scalping_name());
        assert(mean_reversion@ =~= mean_reversion_name());
        if bytes_equal(bytes, &scalping) {
            StrategyKind::Scalping
        } else if bytes_equal(bytes, &mean_reversion) {
            StrategyKind::MeanReversion
        } else {
            StrategyKind::Unknown
        }
    }
}

/// Why a tick row's timestamp is refused.
#[derive(Debug, Clone, Copy, PartialEq, Eq, Structural)]
pub enum TickError {
    /// The text is not a decimal `i64`.
    InvalidTimestamp,
    /// The timestamp lies before the Unix epoch.
    NegativeTimestamp,
    /// The timestamp has no UTC date-time.
    TimestampOutOfRange,
}

/// The outcome of reading a tick timestamp from the bytes `s`.
pub open spec fn spec_tick_timestamp(s: Seq<u8>) -> Result<i64, TickError> {
    match spec_parse_i64(s) {
        None => Err(TickError::InvalidTimestamp),
        Some(v) => if v < 0 {
            Err(TickError::NegativeTimestamp)
        } else if !utc_millis_in_range(v) {
            Err(TickError::TimestampOutOfRange)
        } else {
            Ok(v as i64)
        },
    }
}

/// Reads the millisecond timestamp of a tick row: a decimal `i64`, not
/// negative, that names a UTC date-time.
pub fn parse_tick_timestamp(s: &str) -> (r: Result<i64, TickError>)
    ensures
        r == spec_tick_timestamp(s.spec_bytes()),
{
    match parse_i64(s) {
        None => Err(TickError::InvalidTimestamp),
        Some(v) => {
            if v < 0 {
                Err(TickError::NegativeTimestamp)
            } else if !utc_timestamp_valid(v) {
                Err(TickError::TimestampOutOfRange)
            } else {
                Ok(v)
            }
        },
    }
}

/// The least time in milliseconds between two trades for a limit of
/// `max_trades_per_hour` trades an hour: an hour divided by the limit, a
/// limit of 0 counting as 1.  A limit above `i64::MAX` is taken as the
/// negative `i64` with the same bits, and the quotient rounds toward zero.
pub open spec fn spec_min_gap(max_trades_per_hour: u64) -> int {
    if max_trades_per_hour == 0 {
        3_600_000int
    } else if max_trades_per_hour <= i64::MAX {
        3_600_000int / (max_trades_per_hour as int)
    } else {
        -(3_600_000int / (0x1_0000_0000_0000_0000int - max_trades_per_hour as int))
    }
}

/// The least time in milliseconds between two trades.
pub fn min_time_between_trades(max_trades_per_hour: u64) -> (r: i64)
    ensures
        r as int == spec_min_gap(max_trades_per_hour),
        max_trades_per_hour == 0 ==> r == 3_600_000,
        1 <= max_trades_per_hour <= i64::MAX ==> r * max_trades_per_hour <= 3_600_000 < (r + 1)
            * max_trades_per_hour,
        max_trades_per_hour > i64::MAX ==> r <= 0 && (-r) * (0x1_0000_0000_0000_0000int
            - max_trades_per_hour) <= 3_600_000 < (-r + 1) * (0x1_0000_0000_0000_0000int
            - max_trades_per_hour),
{
    proof {
        law_min_gap_is_hour_over_limit(max_trades_per_hour);
    }
    if max_trades_per_hour == 0 {
        3_600_000
    } else if max_trades_per_hour <= 0x7fff_ffff_ffff_ffffu64 {
        (3_600_000u64 / max_trades_per_hour) as i64
    } else {
        let magnitude: u64 = (0xffff_ffff_ffff_ffffu64 - max_trades_per_hour) + 1;
        let q: u64 = 3_600_000u64 / magnitude;
        -(q as i64)
    }
}

/// Law: the least gap is an hour (3 600 000 ms) divided by the trade limit,
/// rounded down: the largest gap `g` with `g * m <= 3 600 000`.  A limit of 0
/// gives an hour; a limit above `i64::MAX` is a negative divisor `m - 2^64`,
/// and the gap is the negated quotient by its magnitude.
pub proof fn law_min_gap_is_hour_over_limit(m: u64)
    ensures
        m == 0 ==> spec_min_gap(m) == 3_600_000,
        1 <= m <= i64::MAX ==> spec_min_gap(m) * m <= 3_600_000 < (spec_min_gap(m) + 1) * m,
        m > i64::MAX ==> spec_min_gap(m) <= 0 && (-spec_min_gap(m)) * (0x1_0000_0000_0000_0000int - m)
            <= 3_600_000 < (-spec_min_gap(m) + 1) * (0x1_0000_0000_0000_0000int - m),
{
    if 1 <= m <= i64::MAX {
        let g = spec_min_gap(m);
        assert(g * m <= 3_600_000 < (g + 1) * m) by (nonlinear_arith)
            requires
                g == 3_600_000int / (m as int),
                m >= 1,
        ;
    } else if m > i64::MAX {
        let d = 0x1_0000_0000_0000_0000int - m;
        let q = 3_600_000int / d;
        assert(q >= 0 && q * d <= 3_600_000 < (q + 1) * d) by (nonlinear_arith)
            requires
                q == 3_600_000int / d,
                d >= 1,
        ;
        assert(spec_min_gap(m) == -q);
    }
}

/// Limits of the scalping strategy that are not prices.
#[derive(Debug, Clone, Copy, PartialEq, Eq, Structural)]
pub struct ScalpingLimits {
    pub max_trades_per_hour: u64,
    pub max_hold_ms: i64,
}

impl ScalpingLimits {
    /// The limits from the configuration, with 120 trades an hour and a
    /// holding time of 60 000 ms where a value is missing.
    pub fn resolve(max_trades_per_hour: Option<u64>, max_hold_ms: Option<i64>) -> (r: ScalpingLimits)
        ensures
            r.max_trades_per_hour == match max_trades_per_hour {
                Some(v) => v,
                None => 120u64,
            },
            r.max_hold_ms == match max_hold_ms {
                Some(v) => v,
                None => 60_000i64,
            },
    {
        ScalpingLimits {
            max_trades_per_hour: match max_trades_per_hour {
                Some(v) => v,
                None => 120,
            },
            max_hold_ms: match max_hold_ms {
                Some(v) => v,
                None => 60_000,
            },
        }
    }
}

/// Limits of the mean-reversion strategy that are not prices.
#[derive(Debug, Clone, Copy, PartialEq, Eq, Structural)]
pub struct MeanReversionLimits {
    pub ma_period: u64,
    pub max_trades_per_hour: u64,
    pub max_hold_ms: i64,
}

impl MeanReversionLimits {
    /// The limits from the configuration, with a moving-average period of 50
    /// ticks, 40 trades an hour and a holding time of 15 minutes where a value
    /// is missing.
    pub fn resolve(ma_period: Option<u64>, max_trades_per_hour: Option<u64>, max_hold_ms: Option<i64>) -> (r: MeanReversionLimits)
        ensures
            r.ma_period == match ma_period {
                Some(v) => v,
                None => 50u64,
            },
            r.max_trades_per_hour == match max_trades_per_hour {
                Some(v) => v,
                None => 40u64,
            },
            r.max_hold_ms == match max_hold_ms {
                Some(v) => v,
                None => 900_000i64,
            },
    {
        MeanReversionLimits {
            ma_period: match ma_period {
                Some(v) => v,
                None => 50,
            },
            max_trades_per_hour: match max_trades_per_hour {
                Some(v) => v,
                None => 40,
            },
            max_hold_ms: match max_hold_ms {
                Some(v) => v,
                None => 900_000,
            },
        }
    }
}

/// How many recent prices the price history keeps: the configured
/// `max_history`, or 1000.
pub fn history_capacity(max_history: Option<u64>) -> (r: usize)
    ensures
        r == match max_history {
            Some(v) => v as usize,
            None => 1000usize,
        },
{
    match max_history {
        Some(v) => v as usize,
        None => 1000,
    }
}

/// The direction of the open position.
#[derive(Debug, Clone, Copy, PartialEq, Eq, Structural)]
pub enum PositionSide {
    /// No position is open.
    Flat,
    /// One unit bought.
    Long,
    /// One unit sold short.
    Short,
}

/// The open position as far as the decisions need it: its direction and the
/// millisecond timestamp at which it was opened.  A closed position is
/// `Position::flat()`.
#[derive(Debug, Clone, Copy, PartialEq, Eq, Structural)]
pub struct Position {
    pub side: PositionSide,
    pub entry_time_ms: i64,
}

impl Position {
    /// The position after a close: flat, with the entry time reset to 0.
    pub open spec fn spec_flat() -> Position {
        Position { side: PositionSide::Flat, entry_time_ms: 0 }
    }

    /// The position before any trade, and after a close.
    pub fn flat() -> (r: Position)
        ensures
            r == Position::spec_flat(),
    {
        Position { side: PositionSide::Flat, entry_time_ms: 0 }
    }

    /// Timestamps that the decisions subtract from one another are never negative.
    pub open spec fn wf(self) -> bool {
        self.entry_time_ms >= 0
    }
}

/// Whether a trade opens or closes the position.
#[derive(Debug, Clone, Copy, PartialEq, Eq, Structural)]
pub enum OrderKind {
    Entry,
    Exit,
}

/// A trade that a strategy decides on.
#[derive(Debug, Clone, Copy, PartialEq, Eq, Structural)]
pub struct Order {
    pub side: TradeSide,
    pub kind: OrderKind,
}

/// The position just opened at `timestamp_ms` on the side that `side` buys into.
pub open spec fn opened(side: TradeSide, timestamp_ms: i64) -> Position {
    Position {
        side: match side {
            TradeSide::Buy => PositionSide::Long,
            TradeSide::Sell => PositionSide::Short,
        },
        entry_time_ms: timestamp_ms,
    }
}

/// The trade that closes a position of the given side.
pub open spec fn closing_side(side: PositionSide) -> TradeSide {
    match side {
        PositionSide::Short => TradeSide::Buy,
        _ => TradeSide::Sell,
    }
}

/// Whether a new position may be opened at `timestamp_ms`: none is open, and
/// at least the least gap has passed since the last trade.
pub open spec fn entry_gate_open(
    timestamp_ms: i64,
    last_trade_time_ms: i64,
    max_trades_per_hour: u64,
    position: Position,
) -> bool {
    &&& timestamp_ms - last_trade_time_ms >= spec_min_gap(max_trades_per_hour)
    &&& position.side == PositionSide::Flat
}

/// The outcome of one decision: the trade, the position after it, and the
/// time of the last trade after it.
pub type Decision = (Option<Order>, Position, i64);

/// Outcomes of the price comparisons of the scalping strategy at a tick.
#[derive(Debug, Clone, Copy, PartialEq, Eq, Structural)]
pub struct ScalpingSignals {
    /// For a long position: the exit price minus the average price reaches
    /// the take-profit, or falls to the negated stop-loss.
    pub price_exit: bool,
    /// The spread is at most 1.5 times the minimum spread.
    pub calm_spread: bool,
    /// The spread is at most the minimum spread.
    pub narrow_spread: bool,
}

/// Whether the scalping strategy closes the position: it is long, and either
/// the price calls for an exit or it has been held for the maximal holding
/// time while the spread is calm.
pub open spec fn scalping_exit_due(
    timestamp_ms: i64,
    signals: ScalpingSignals,
    limits: ScalpingLimits,
    position: Position,
) -> bool {
    &&& position.side == PositionSide::Long
    &&& (signals.price_exit || (timestamp_ms - position.entry_time_ms >= limits.max_hold_ms
        && signals.calm_spread))
}

/// One decision of the scalping strategy: close a due long position; else,
/// when the entry gate is open and the spread is narrow, buy one unit; else
/// nothing.
pub open spec fn scalping_decision(
    timestamp_ms: i64,
    signals: ScalpingSignals,
    limits: ScalpingLimits,
    position: Position,
    last_trade_time_ms: i64,
) -> Decision {
    if scalping_exit_due(timestamp_ms, signals, limits, position) {
        (
            Some(Order { side: TradeSide::Sell, kind: OrderKind::Exit }),
            Position::spec_flat(),
            timestamp_ms,
        )
    } else if entry_gate_open(timestamp_ms, last_trade_time_ms, limits.max_trades_per_hour, position)
        && signals.narrow_spread {
        (
            Some(Order { side: TradeSide::Buy, kind: OrderKind::Entry }),
            opened(TradeSide::Buy, timestamp_ms),
            timestamp_ms,
        )
    } else {
        (None, position, last_trade_time_ms)
    }
}

/// Runs the scalping strategy on one tick.
pub fn execute_scalping_strategy(
    timestamp_ms: i64,
    signals: ScalpingSignals,
    limits: &ScalpingLimits,
    position: &mut Position,
    last_trade_time_ms: &mut i64,
) -> (r: Option<Order>)
    requires
        timestamp_ms >= 0,
        *old(last_trade_time_ms) >= 0,
        old(position).wf(),
    ensures
        (r, *final(position), *final(last_trade_time_ms)) == scalping_decision(
            timestamp_ms,
            signals,
            *limits,
            *old(position),
            *old(last_trade_time_ms),
        ),
        final(position).wf(),
        *final(last_trade_time_ms) >= 0,
{
    if position.side == PositionSide::Long {
        let held_for = timestamp_ms - position.entry_time_ms;
        let timed_exit = held_for >= limits.max_hold_ms && signals.calm_spread;
        if signals.price_exit || timed_exit {
            *last_trade_time_ms = timestamp_ms;
            *position = Position::flat();
            return Some(Order { side: TradeSide::Sell, kind: OrderKind::Exit });
        }
    }
    let time_since_last_trade = timestamp_ms - *last_trade_time_ms;
    let min_gap = min_time_between_trades(limits.max_trades_per_hour);
    if time_since_last_trade < min_gap || position.side != PositionSide::Flat {
        return None;
    }
    if signals.narrow_spread {
        *position = Position { side: PositionSide::Long, entry_time_ms: timestamp_ms };
        *last_trade_time_ms = timestamp_ms;
        return Some(Order { side: TradeSide::Buy, kind: OrderKind::Entry });
    }
    None
}

/// Outcomes of the price comparisons of the mean-reversion strategy at a tick,
/// against the mean and standard deviation of the recent mid prices.
#[derive(Debug, Clone, Copy, PartialEq, Eq, Structural)]
pub struct MeanReversionSignals {
    /// For the open position: the mid price has crossed back to the mean, or
    /// the gross profit reaches the take-profit, or falls to the negated
    /// stop-loss.
    pub price_exit: bool,
    /// The mid price is at or below the lower band.
    pub below_lower_band: bool,
    /// The mid price is at or above the upper band.
    pub above_upper_band: bool,
}

/// How many recent mid prices the bands are computed from, or `None` while
/// the history is shorter than the period (or the period is 0), when the
/// strategy does nothing.
pub open spec fn spec_band_sample_size(history_len: nat, ma_period: u64) -> Option<nat> {
    if history_len < ma_period || ma_period == 0 {
        None
    } else {
        Some(ma_period as nat)
    }
}

/// How many recent mid prices the mean-reversion bands use at this tick.
pub fn band_sample_size(history_len: usize, ma_period: u64) -> (r: Option<usize>)
    ensures
        match r {
            Some(n) => spec_band_sample_size(history_len as nat, ma_period) == Some(n as nat),
            None => spec_band_sample_size(history_len as nat, ma_period) is None,
        },
{
    if (history_len as u64) < ma_period || ma_period == 0 {
        None
    } else {
        Some(ma_period as usize)
    }
}

/// Whether the mean-reversion strategy closes the position: one is open, and
/// either the price calls for an exit or it has been held for the maximal
/// holding time.
pub open spec fn mean_reversion_exit_due(
    timestamp_ms: i64,
    signals: MeanReversionSignals,
    limits: MeanReversionLimits,
    position: Position,
) -> bool {
    &&& position.side != PositionSide::Flat
    &&& (signals.price_exit || timestamp_ms - position.entry_time_ms >= limits.max_hold_ms)
}

/// One decision of the mean-reversion strategy: close a due position; else,
/// when the entry gate is open, buy at or below the lower band, or sell short
/// at or above the upper band; else nothing.
pub open spec fn mean_reversion_decision(
    timestamp_ms: i64,
    signals: MeanReversionSignals,
    limits: MeanReversionLimits,
    position: Position,
    last_trade_time_ms: i64,
) -> Decision {
    if mean_reversion_exit_due(timestamp_ms, signals, limits, position) {
        (
            Some(Order { side: closing_side(position.side), kind: OrderKind::Exit }),
            Position::spec_flat(),
            timestamp_ms,
        )
    } else if !entry_gate_open(
        timestamp_ms,
        last_trade_time_ms,
        limits.max_trades_per_hour,
        position,
    ) {
        (None, position, last_trade_time_ms)
    } else if signals.below_lower_band {
        (
            Some(Order { side: TradeSide::Buy, kind: OrderKind::Entry }),
            opened(TradeSide::Buy, timestamp_ms),
            timestamp_ms,
        )
    } else if signals.above_upper_band {
        (
            Some(Order { side: TradeSide::Sell, kind: OrderKind::Entry }),
            opened(TradeSide::Sell, timestamp_ms),
            timestamp_ms,
        )
    } else {
        (None, position, last_trade_time_ms)
    }
}

/// Runs the mean-reversion strategy on one tick whose bands are ready (see
/// `band_sample_size`).
pub fn execute_mean_reversion_strategy(
    timestamp_ms: i64,
    signals: MeanReversionSignals,
    limits: &MeanReversionLimits,
    position: &mut Position,
    last_trade_time_ms: &mut i64,
) -> (r: Option<Order>)
    requires
        timestamp_ms >= 0,
        *old(last_trade_time_ms) >= 0,
        old(position).wf(),
    ensures
        (r, *final(position), *final(last_trade_time_ms)) == mean_reversion_decision(
            timestamp_ms,
            signals,
            *limits,
            *old(position),
            *old(last_trade_time_ms),
        ),
        final(position).wf(),
        *final(last_trade_time_ms) >= 0,
{
    if position.side != PositionSide::Flat {
        let held_for = timestamp_ms - position.entry_time_ms;
        if signals.price_exit || held_for >= limits.max_hold_ms {
            let side = if position.side == PositionSide::Long {
                TradeSide::Sell
            } else {
                TradeSide::Buy
            };
            *last_trade_time_ms = timestamp_ms;
            *position = Position::flat();
            return Some(Order { side, kind: OrderKind::Exit });
        }
    }
    let time_since_last_trade = timestamp_ms - *last_trade_time_ms;
    let min_gap = min_time_between_trades(limits.max_trades_per_hour);
    if time_since_last_trade < min_gap || position.side != PositionSide::Flat {
        return None;
    }
    if signals.below_lower_band {
        *position = Position { side: PositionSide::Long, entry_time_ms: timestamp_ms };
        *last_trade_time_ms = timestamp_ms;
        Some(Order { side: TradeSide::Buy, kind: OrderKind::Entry })
    } else if signals.above_upper_band {
        *position = Position { side: PositionSide::Short, entry_time_ms: timestamp_ms };
        *last_trade_time_ms = timestamp_ms;
        Some(Order { side: TradeSide::Sell, kind: OrderKind::Entry })
    } else {
        None
    }
}

/// The trade that closes whatever position is still open at the end of a
/// file: none when flat, else the opposite side of the position.
pub open spec fn spec_close_order(position: Position) -> Option<Order> {
    if position.side == PositionSide::Flat {
        None
    } else {
        Some(Order { side: closing_side(position.side), kind: OrderKind::Exit })
    }
}

/// Closes the open position, if any, and leaves the position flat.
pub fn close_open_position(position: &mut Position) -> (r: Option<Order>)
    ensures
        r == spec_close_order(*old(position)),
        old(position).side != PositionSide::Flat ==> *final(position) == Position::spec_flat(),
        old(position).side == PositionSide::Flat ==> *final(position) == *old(position),
{
    if position.side == PositionSide::Flat {
        return None;
    }
    let side = if position.side == PositionSide::Long {
        TradeSide::Sell
    } else {
        TradeSide::Buy
    };
    *position = Position::flat();
    Some(Order { side, kind: OrderKind::Exit })
}

/// The prices kept after pushing `x` onto `kept` with room for `capacity`:
/// `x` is appended, and the oldest price is dropped when over capacity.
pub open spec fn history_push<T>(kept: Seq<T>, x: T, capacity: nat) -> Seq<T> {
    let grown = kept.push(x);
    if grown.len() > capacity {
        grown.drop_first()
    } else {
        grown
    }
}

/// The last `capacity` elements of `pushed` (all of them when fewer).
pub open spec fn latest<T>(pushed: Seq<T>, capacity: nat) -> Seq<T> {
    if pushed.len() <= capacity {
        pushed
    } else {
        pushed.subrange(pushed.len() - capacity, pushed.len() as int)
    }
}

/// The most recent prices of a file, oldest first, at most `capacity` of them.
pub struct PriceHistory<T> {
    items: VecDeque<T>,
    capacity: usize,
}

impl<T> View for PriceHistory<T> {
    type V = Seq<T>;

    closed spec fn view(&self) -> Seq<T> {
        self.items@
    }
}

impl<T> PriceHistory<T> {
    /// The number of prices the history keeps at most.
    pub closed spec fn spec_capacity(self) -> nat {
        self.capacity as nat
    }

    /// The history never holds more than its capacity.
    pub closed spec fn wf(self) -> bool {
        self.items@.len() <= self.capacity
    }

    /// Law: a history never holds more prices than its capacity.
    pub proof fn law_history_bounded(self)
        requires
            self.wf(),
        ensures
            self@.len() <= self.spec_capacity(),
    {
    }

    /// An empty history that keeps at most `capacity` prices.
    pub fn new(capacity: usize) -> (r: PriceHistory<T>)
        ensures
            r.wf(),
            r@ == Seq::<T>::empty(),
            r.spec_capacity() == capacity,
    {
        PriceHistory { items: VecDeque::new(), capacity }
    }

    /// The number of prices held.
    pub fn len(&self) -> (r: usize)
        ensures
            r == self@.len(),
    {
        self.items.len()
    }

    /// Appends a price, dropping the oldest one when over capacity.
    pub fn push(&mut self, x: T)
        requires
            old(self).wf(),
        ensures
            final(self).wf(),
            final(self).spec_capacity() == old(self).spec_capacity(),
            final(self)@ == history_push(old(self)@, x, old(self).spec_capacity()),
    {
        self.items.push_back(x);
        if self.items.len() > self.capacity {
            let _ = self.items.pop_front();
        }
    }

    /// The `n` most recent prices (all of them when fewer), newest first.
    pub fn recent(&self, n: usize) -> (r: Vec<T>) where T: Copy
        ensures
            r@.len() == (if n <= self@.len() { n as nat } else { self@.len() }),
            forall|i: int| 0 <= i < r@.len() ==> r@[i] == self@[self@.len() - 1 - i],
    {
        let len = self.items.len();
        let count = if n <= len { n } else { len };
        let mut r: Vec<T> = Vec::new();
        let mut i: usize = 0;
        while i < count
            invariant
                count <= len,
                len == self@.len(),
                i <= count,
                r@.len() == i,
                forall|k: int| 0 <= k < i ==> r@[k] == self@[len - 1 - k],
            decreases count - i,
        {
            let x = self.items[len - 1 - i];
            r.push(x);
            i = i + 1;
        }
        r
    }
}

/// The positive times between consecutive timestamps, in order.
pub open spec fn positive_gaps(timestamps: Seq<i64>) -> Seq<i64>
    decreases timestamps.len(),
{
    if timestamps.len() < 2 {
        Seq::empty()
    } else {
        let earlier = positive_gaps(timestamps.drop_last());
        let gap = timestamps.last() - timestamps[timestamps.len() - 2];
        if gap > 0 {
            earlier.push(gap as i64)
        } else {
            earlier
        }
    }
}

/// The holding times of a run: the positive times in milliseconds between
/// consecutive trades, in order.
pub fn holding_times(timestamps: &Vec<i64>) -> (r: Vec<i64>)
    requires
        forall|i: int| 0 <= i < timestamps@.len() ==> utc_millis_in_range(#[trigger] timestamps@[i] as int),
    ensures
        r@ == positive_gaps(timestamps@),
{
    let mut r: Vec<i64> = Vec::new();
    let n = timestamps.len();
    if n < 2 {
        return r;
    }
    let mut i: usize = 1;
    assert(timestamps@.subrange(0, 1).len() < 2);
    while i < n
        invariant
            n == timestamps@.len(),
            1 <= i <= n,
            forall|k: int| 0 <= k < timestamps@.len() ==> utc_millis_in_range(#[trigger] timestamps@[k] as int),
            r@ == positive_gaps(timestamps@.subrange(0, i as int)),
        decreases n - i,
    {
        let a = timestamps[i - 1];
        let b = timestamps[i];
        assert(utc_millis_in_range(timestamps@[i - 1] as int));
        assert(utc_millis_in_range(timestamps@[i as int] as int));
        let gap = b - a;
        let ghost next = timestamps@.subrange(0, i + 1);
        assert(next.drop_last() =~= timestamps@.subrange(0, i as int));
        if gap > 0 {
            r.push(gap);
        }
        i = i + 1;
    }
    assert(timestamps@.subrange(0, n as int) =~= timestamps@);
    r
}

/// The position side after `order`, from `side`, or `None` when the order
/// does not fit the position: entries only from flat (a buy goes long, a sell
/// goes short), and exits only by the opposite side of the open position.
pub open spec fn apply_order(side: PositionSide, order: Order) -> Option<PositionSide> {
    match (side, order.kind, order.side) {
        (PositionSide::Flat, OrderKind::Entry, TradeSide::Buy) => Some(PositionSide::Long),
        (PositionSide::Flat, OrderKind::Entry, TradeSide::Sell) => Some(PositionSide::Short),
        (PositionSide::Long, OrderKind::Exit, TradeSide::Sell) => Some(PositionSide::Flat),
        (PositionSide::Short, OrderKind::Exit, TradeSide::Buy) => Some(PositionSide::Flat),
        _ => None,
    }
}

/// The position side reached by replaying a trade log from `start`, or
/// `None` when some order does not fit the position before it.
pub open spec fn replay_from(start: PositionSide, orders: Seq<Order>) -> Option<PositionSide>
    decreases orders.len(),
{
    if orders.len() == 0 {
        Some(start)
    } else {
        match replay_from(start, orders.drop_last()) {
            Some(side) => apply_order(side, orders.last()),
            None => None,
        }
    }
}

/// The position side reached by replaying a trade log from flat.
pub open spec fn replay(orders: Seq<Order>) -> Option<PositionSide> {
    replay_from(PositionSide::Flat, orders)
}

/// The trade log after a decision.
pub open spec fn logged(log: Seq<Order>, order: Option<Order>) -> Seq<Order> {
    match order {
        Some(o) => log.push(o),
        None => log,
    }
}

/// Whether the `k`-th pair of a trade log opens a position and then closes
/// it by the opposite side.
pub open spec fn pair_ok(orders: Seq<Order>, k: int) -> bool {
    &&& orders[2 * k].kind == OrderKind::Entry
    &&& orders[2 * k + 1].kind == OrderKind::Exit
    &&& orders[2 * k].side != orders[2 * k + 1].side
}

/// Whether a trade log is a sequence of round trips: an even number of
/// trades, each entry followed by the exit of the opposite side.
pub open spec fn paired(orders: Seq<Order>) -> bool {
    &&& orders.len() % 2 == 0
    &&& forall|k: int| 0 <= k < orders.len() / 2 ==> #[trigger] pair_ok(orders, k)
}

proof fn lemma_logged_replay(
    start: PositionSide,
    log: Seq<Order>,
    before: PositionSide,
    order: Option<Order>,
    after: PositionSide,
)
    requires
        replay_from(start, log) == Some(before),
        match order {
            Some(o) => apply_order(before, o) == Some(after),
            None => after == before,
        },
    ensures
        replay_from(start, logged(log, order)) == Some(after),
{
    if let Some(o) = order {
        assert(log.push(o).drop_last() =~= log);
    }
}

/// The shape of a trade log replayed from flat: round trips, then an open
/// entry when the position is not flat.
proof fn lemma_replay_shape(orders: Seq<Order>)
    requires
        replay(orders) is Some,
    ensures
        replay(orders) == Some(PositionSide::Flat) ==> paired(orders),
        replay(orders) != Some(PositionSide::Flat) ==> {
            &&& orders.len() > 0
            &&& paired(orders.drop_last())
            &&& orders.last().kind == OrderKind::Entry
            &&& orders.last().side == (if replay(orders) == Some(PositionSide::Long) {
                TradeSide::Buy
            } else {
                TradeSide::Sell
            })
        },
    decreases orders.len(),
{
    if orders.len() == 0 {
        assert(paired(orders));
    } else {
        let t = orders.drop_last();
        let o = orders.last();
        lemma_replay_shape(t);
        if replay(orders) == Some(PositionSide::Flat) {
            // `o` closes the entry that ends `t`
            let u = t.drop_last();
            assert(orders.len() % 2 == 0);
            assert forall|k: int| 0 <= k < orders.len() / 2 implies #[trigger] pair_ok(orders, k) by {
                if k < orders.len() / 2 - 1 {
                    assert(pair_ok(u, k));
                    assert(orders[2 * k] == u[2 * k]);
                    assert(orders[2 * k + 1] == u[2 * k + 1]);
                } else {
                    assert(orders[2 * k] == t.last());
                }
            }
        } else {
            assert(t.len() % 2 == 0);
            assert(orders.drop_last() == t);
        }
    }
}

/// Law: a trade log that replays from flat back to flat is a sequence of
/// round trips, each entry followed by the exit of the opposite side.
pub proof fn law_flat_log_is_round_trips(orders: Seq<Order>)
    requires
        replay(orders) == Some(PositionSide::Flat),
    ensures
        paired(orders),
{
    lemma_replay_shape(orders);
}

/// Law: a trade log that replays to the current position still replays to
/// the position after a scalping decision, with the decision's trade appended.
/// So the trades alternate between opening from flat and closing by the
/// opposite side, and at most one position is ever open.
pub proof fn law_scalping_log_consistent(
    log: Seq<Order>,
    timestamp_ms: i64,
    signals: ScalpingSignals,
    limits: ScalpingLimits,
    position: Position,
    last_trade_time_ms: i64,
)
    requires
        replay(log) == Some(position.side),
    ensures
        ({
            let (order, after, _) = scalping_decision(
                timestamp_ms,
                signals,
                limits,
                position,
                last_trade_time_ms,
            );
            replay(logged(log, order)) == Some(after.side)
        }),
{
    let (order, after, _) = scalping_decision(timestamp_ms, signals, limits, position, last_trade_time_ms);
    lemma_logged_replay(PositionSide::Flat, log, position.side, order, after.side);
}

/// Law: a trade log that replays to the current position still replays to
/// the position after a mean-reversion decision, with its trade appended.
pub proof fn law_mean_reversion_log_consistent(
    log: Seq<Order>,
    timestamp_ms: i64,
    signals: MeanReversionSignals,
    limits: MeanReversionLimits,
    position: Position,
    last_trade_time_ms: i64,
)
    requires
        replay(log) == Some(position.side),
    ensures
        ({
            let (order, after, _) = mean_reversion_decision(
                timestamp_ms,
                signals,
                limits,
                position,
                last_trade_time_ms,
            );
            replay(logged(log, order)) == Some(after.side)
        }),
{
    let (order, after, _) = mean_reversion_decision(
        timestamp_ms,
        signals,
        limits,
        position,
        last_trade_time_ms,
    );
    lemma_logged_replay(PositionSide::Flat, log, position.side, order, after.side);
}

/// Law: closing the open position at the end of a file leaves a trade log
/// that replays to flat, so every position opened in a file is closed in it.
pub proof fn law_close_leaves_flat_log(log: Seq<Order>, position: Position)
    requires
        replay(log) == Some(position.side),
    ensures
        replay(logged(log, spec_close_order(position))) == Some(PositionSide::Flat),
{
    lemma_logged_replay(PositionSide::Flat, log, position.side, spec_close_order(position), PositionSide::Flat);
}

/// Law: a strategy opens a position only when none is open and at least the
/// least gap for the trade limit has passed since the last trade.
pub proof fn law_entries_respect_gap(
    timestamp_ms: i64,
    scalping_signals: ScalpingSignals,
    scalping_limits: ScalpingLimits,
    reversion_signals: MeanReversionSignals,
    reversion_limits: MeanReversionLimits,
    position: Position,
    last_trade_time_ms: i64,
)
    ensures
        (scalping_decision(timestamp_ms, scalping_signals, scalping_limits, position, last_trade_time_ms).0
            matches Some(o) && o.kind == OrderKind::Entry) ==> (position.side == PositionSide::Flat
            && timestamp_ms - last_trade_time_ms >= spec_min_gap(scalping_limits.max_trades_per_hour)),
        (mean_reversion_decision(timestamp_ms, reversion_signals, reversion_limits, position, last_trade_time_ms).0
            matches Some(o) && o.kind == OrderKind::Entry) ==> (position.side == PositionSide::Flat
            && timestamp_ms - last_trade_time_ms >= spec_min_gap(reversion_limits.max_trades_per_hour)),
        (scalping_decision(timestamp_ms, scalping_signals, scalping_limits, position, last_trade_time_ms).0
            matches Some(o) && o.kind == OrderKind::Entry) && 1 <= scalping_limits.max_trades_per_hour
            <= i64::MAX ==> (timestamp_ms - last_trade_time_ms + 1) * scalping_limits.max_trades_per_hour
            > 3_600_000,
        (mean_reversion_decision(timestamp_ms, reversion_signals, reversion_limits, position, last_trade_time_ms).0
            matches Some(o) && o.kind == OrderKind::Entry) && 1 <= reversion_limits.max_trades_per_hour
            <= i64::MAX ==> (timestamp_ms - last_trade_time_ms + 1) * reversion_limits.max_trades_per_hour
            > 3_600_000,
{
    law_min_gap_is_hour_over_limit(scalping_limits.max_trades_per_hour);
    law_min_gap_is_hour_over_limit(reversion_limits.max_trades_per_hour);
    let e = timestamp_ms - last_trade_time_ms;
    let gs = spec_min_gap(scalping_limits.max_trades_per_hour);
    let ms = scalping_limits.max_trades_per_hour as int;
    if e >= gs && 1 <= ms {
        assert((e + 1) * ms >= (gs + 1) * ms) by (nonlinear_arith)
            requires
                e >= gs,
                ms >= 1,
        ;
    }
    let gr = spec_min_gap(reversion_limits.max_trades_per_hour);
    let mr = reversion_limits.max_trades_per_hour as int;
    if e >= gr && 1 <= mr {
        assert((e + 1) * mr >= (gr + 1) * mr) by (nonlinear_arith)
            requires
                e >= gr,
                mr >= 1,
        ;
    }
}

/// Law of the scalping strategy, over every input: a long position is
/// closed by a sell, leaving the position flat (entry time 0) and the last
/// trade stamped with the tick, when the price calls for an exit or when it
/// has been held for at least the configured `max_hold_ms` with a calm
/// spread; otherwise a long position is kept and nothing trades.  From flat,
/// one unit is bought, long from this tick, when the spread is narrow and at
/// least the least gap has passed since the last trade.
pub proof fn law_scalping_exits_and_entries(
    timestamp_ms: i64,
    signals: ScalpingSignals,
    limits: ScalpingLimits,
    position: Position,
    last_trade_time_ms: i64,
)
    ensures
        position.side == PositionSide::Long && (signals.price_exit || (signals.calm_spread
            && timestamp_ms - position.entry_time_ms >= limits.max_hold_ms)) ==> scalping_decision(
            timestamp_ms,
            signals,
            limits,
            position,
            last_trade_time_ms,
        ) == (
            Some(Order { side: TradeSide::Sell, kind: OrderKind::Exit }),
            Position { side: PositionSide::Flat, entry_time_ms: 0 },
            timestamp_ms,
        ),
        position.side == PositionSide::Long && !signals.price_exit && !(signals.calm_spread
            && timestamp_ms - position.entry_time_ms >= limits.max_hold_ms) ==> scalping_decision(
            timestamp_ms,
            signals,
            limits,
            position,
            last_trade_time_ms,
        ) == (None::<Order>, position, last_trade_time_ms),
        position.side == PositionSide::Flat && signals.narrow_spread && timestamp_ms
            - last_trade_time_ms >= spec_min_gap(limits.max_trades_per_hour) ==> scalping_decision(
            timestamp_ms,
            signals,
            limits,
            position,
            last_trade_time_ms,
        ) == (
            Some(Order { side: TradeSide::Buy, kind: OrderKind::Entry }),
            Position { side: PositionSide::Long, entry_time_ms: timestamp_ms },
            timestamp_ms,
        ),
{
}

/// Law of the mean-reversion strategy, over every input: an open position,
/// long or short, is closed by the opposite side (a sell closes a long, a
/// buy closes a short), leaving the position flat (entry time 0) and the
/// last trade stamped with the tick, when the price calls for an exit or when
/// it has been held for at least `max_hold_ms`; otherwise it is kept and
/// nothing trades.
pub proof fn law_mean_reversion_exits(
    timestamp_ms: i64,
    signals: MeanReversionSignals,
    limits: MeanReversionLimits,
    position: Position,
    last_trade_time_ms: i64,
)
    ensures
        position.side == PositionSide::Long && (signals.price_exit || timestamp_ms
            - position.entry_time_ms >= limits.max_hold_ms) ==> mean_reversion_decision(
            timestamp_ms,
            signals,
            limits,
            position,
            last_trade_time_ms,
        ) == (
            Some(Order { side: TradeSide::Sell, kind: OrderKind::Exit }),
            Position { side: PositionSide::Flat, entry_time_ms: 0 },
            timestamp_ms,
        ),
        position.side == PositionSide::Short && (signals.price_exit || timestamp_ms
            - position.entry_time_ms >= limits.max_hold_ms) ==> mean_reversion_decision(
            timestamp_ms,
            signals,
            limits,
            position,
            last_trade_time_ms,
        ) == (
            Some(Order { side: TradeSide::Buy, kind: OrderKind::Exit }),
            Position { side: PositionSide::Flat, entry_time_ms: 0 },
            timestamp_ms,
        ),
        position.side != PositionSide::Flat && !signals.price_exit && timestamp_ms
            - position.entry_time_ms < limits.max_hold_ms ==> mean_reversion_decision(
            timestamp_ms,
            signals,
            limits,
            position,
            last_trade_time_ms,
        ) == (None::<Order>, position, last_trade_time_ms),
{
}

/// Law of the mean-reversion strategy's entries, over every input: from
/// flat, once at least the least gap has passed since the last trade, a mid
/// price at or below the lower band buys one unit (long from this tick), and
/// otherwise one at or above the upper band sells one unit short; before the
/// gap has passed, nothing trades.
pub proof fn law_mean_reversion_entries(
    timestamp_ms: i64,
    signals: MeanReversionSignals,
    limits: MeanReversionLimits,
    position: Position,
    last_trade_time_ms: i64,
)
    ensures
        position.side == PositionSide::Flat && timestamp_ms - last_trade_time_ms >= spec_min_gap(
            limits.max_trades_per_hour,
        ) && signals.below_lower_band ==> mean_reversion_decision(
            timestamp_ms,
            signals,
            limits,
            position,
            last_trade_time_ms,
        ) == (
            Some(Order { side: TradeSide::Buy, kind: OrderKind::Entry }),
            Position { side: PositionSide::Long, entry_time_ms: timestamp_ms },
            timestamp_ms,
        ),
        position.side == PositionSide::Flat && timestamp_ms - last_trade_time_ms >= spec_min_gap(
            limits.max_trades_per_hour,
        ) && !signals.below_lower_band && signals.above_upper_band ==> mean_reversion_decision(
            timestamp_ms,
            signals,
            limits,
            position,
            last_trade_time_ms,
        ) == (
            Some(Order { side: TradeSide::Sell, kind: OrderKind::Entry }),
            Position { side: PositionSide::Short, entry_time_ms: timestamp_ms },
            timestamp_ms,
        ),
        position.side == PositionSide::Flat && timestamp_ms - last_trade_time_ms < spec_min_gap(
            limits.max_trades_per_hour,
        ) ==> mean_reversion_decision(
            timestamp_ms,
            signals,
            limits,
            position,
            last_trade_time_ms,
        ) == (None::<Order>, position, last_trade_time_ms),
{
}

/// Law of the close at the end of a file, over every position: a long
/// position is closed by a sell, a short one by a buy, and a flat one trades
/// nothing.
pub proof fn law_close_sides(position: Position)
    ensures
        position.side == PositionSide::Long ==> spec_close_order(position) == Some(
            Order { side: TradeSide::Sell, kind: OrderKind::Exit },
        ),
        position.side == PositionSide::Short ==> spec_close_order(position) == Some(
            Order { side: TradeSide::Buy, kind: OrderKind::Exit },
        ),
        position.side == PositionSide::Flat ==> spec_close_order(position) is None,
{
}

/// Law of the mean-reversion bands, over every input: they are ready exactly
/// when the period is positive and the history holds at least a period of
/// prices, and they then use one period of prices; until then a
/// mean-reversion tick trades nothing.  An unknown strategy runs no tick.
pub proof fn law_bands_readiness(
    history_len: nat,
    limits: MeanReversionLimits,
    timestamp_ms: i64,
    signals: TickSignals,
    position: Position,
    last_trade_time_ms: i64,
)
    ensures
        (spec_band_sample_size(history_len, limits.ma_period) is Some) <==> (limits.ma_period > 0
            && history_len >= limits.ma_period),
        spec_band_sample_size(history_len, limits.ma_period) matches Some(n) ==> n == limits.ma_period,
        !(limits.ma_period > 0 && history_len >= limits.ma_period) ==> tick_decision(
            Strategy::MeanReversion(limits),
            history_len,
            timestamp_ms,
            signals,
            position,
            last_trade_time_ms,
        ) == Some((None::<Order>, position, last_trade_time_ms)),
        tick_decision(Strategy::Unknown, history_len, timestamp_ms, signals, position, last_trade_time_ms)
            is None,
{
}

/// Law of a file's run, over every input: a tick that trades stamps the
/// run's last trade time with the tick's time, and a tick that does not
/// trade keeps the position and that time.
pub proof fn law_tick_stamps_last_trade(
    strategy: Strategy,
    history_len: nat,
    timestamp_ms: i64,
    signals: TickSignals,
    position: Position,
    last_trade_time_ms: i64,
)
    ensures
        tick_decision(strategy, history_len, timestamp_ms, signals, position, last_trade_time_ms)
            matches Some((Some(_), _, last)) ==> last == timestamp_ms,
        tick_decision(strategy, history_len, timestamp_ms, signals, position, last_trade_time_ms)
            matches Some((None, after, last)) ==> after == position && last == last_trade_time_ms,
{
}

/// Law: every trade sets the time of the last trade to the tick's time, and a
/// tick without a trade changes neither the position nor that time.
pub proof fn law_trades_stamp_last_trade_time(
    timestamp_ms: i64,
    scalping_signals: ScalpingSignals,
    scalping_limits: ScalpingLimits,
    reversion_signals: MeanReversionSignals,
    reversion_limits: MeanReversionLimits,
    position: Position,
    last_trade_time_ms: i64,
)
    ensures
        ({
            let (order, after, last) = scalping_decision(
                timestamp_ms,
                scalping_signals,
                scalping_limits,
                position,
                last_trade_time_ms,
            );
            &&& order is Some ==> last == timestamp_ms
            &&& order is None ==> after == position && last == last_trade_time_ms
        }),
        ({
            let (order, after, last) = mean_reversion_decision(
                timestamp_ms,
                reversion_signals,
                reversion_limits,
                position,
                last_trade_time_ms,
            );
            &&& order is Some ==> last == timestamp_ms
            &&& order is None ==> after == position && last == last_trade_time_ms
        }),
{
}

/// Law: pushing a price onto the history of everything pushed so far keeps
/// exactly the last `capacity` prices pushed.
pub proof fn law_history_keeps_latest<T>(pushed: Seq<T>, x: T, capacity: nat)
    ensures
        history_push(latest(pushed, capacity), x, capacity) == latest(pushed.push(x), capacity),
{
    let kept = latest(pushed, capacity);
    let grown = kept.push(x);
    let all = pushed.push(x);
    if pushed.len() + 1 <= capacity {
        assert(grown =~= all);
    } else if pushed.len() <= capacity {
        assert(grown.drop_first() =~= all.subrange(all.len() - capacity, all.len() as int));
    } else {
        assert(grown.drop_first() =~= all.subrange(all.len() - capacity, all.len() as int));
    }
}

/// Law: holding times are positive and there is at most one fewer than the
/// trades.
pub proof fn law_holding_times_positive(timestamps: Seq<i64>)
    requires
        forall|i: int| 0 <= i < timestamps.len() ==> utc_millis_in_range(#[trigger] timestamps[i] as int),
    ensures
        forall|i: int| 0 <= i < positive_gaps(timestamps).len() ==> #[trigger] positive_gaps(timestamps)[i] > 0,
        positive_gaps(timestamps).len() + 1 <= timestamps.len() || timestamps.len() == 0,
    decreases timestamps.len(),
{
    if timestamps.len() >= 2 {
        let earlier = timestamps.drop_last();
        assert(forall|i: int| 0 <= i < earlier.len() ==> earlier[i] == timestamps[i]);
        law_holding_times_positive(earlier);
        assert(utc_millis_in_range(timestamps[timestamps.len() - 1] as int));
        assert(utc_millis_in_range(timestamps[timestamps.len() - 2] as int));
    }
}

/// The strategy of a run with its limits.
#[derive(Debug, Clone, Copy, PartialEq, Eq, Structural)]
pub enum Strategy {
    Scalping(ScalpingLimits),
    MeanReversion(MeanReversionLimits),
    /// A strategy name the engine does not know: no tick of a file is run.
    Unknown,
}

impl Strategy {
    /// The strategy that `kind` names, with its limits resolved from the
    /// configuration (each strategy has its own defaults).
    pub fn configure(
        kind: StrategyKind,
        ma_period: Option<u64>,
        max_trades_per_hour: Option<u64>,
        max_hold_ms: Option<i64>,
    ) -> (r: Strategy)
        ensures
            r == match kind {
                StrategyKind::Scalping => Strategy::Scalping(ScalpingLimits {
                    max_trades_per_hour: match max_trades_per_hour {
                        Some(v) => v,
                        None => 120u64,
                    },
                    max_hold_ms: match max_hold_ms {
                        Some(v) => v,
                        None => 60_000i64,
                    },
                }),
                StrategyKind::MeanReversion => Strategy::MeanReversion(MeanReversionLimits {
                    ma_period: match ma_period {
                        Some(v) => v,
                        None => 50u64,
                    },
                    max_trades_per_hour: match max_trades_per_hour {
                        Some(v) => v,
                        None => 40u64,
                    },
                    max_hold_ms: match max_hold_ms {
                        Some(v) => v,
                        None => 900_000i64,
                    },
                }),
                StrategyKind::Unknown => Strategy::Unknown,
            },
    {
        match kind {
            StrategyKind::Scalping => Strategy::Scalping(ScalpingLimits::resolve(max_trades_per_hour, max_hold_ms)),
            StrategyKind::MeanReversion => Strategy::MeanReversion(
                MeanReversionLimits::resolve(ma_period, max_trades_per_hour, max_hold_ms),
            ),
            StrategyKind::Unknown => Strategy::Unknown,
        }
    }
}

/// The outcomes of the price comparisons at a tick, for the run's strategy.
#[derive(Debug, Clone, Copy, PartialEq, Eq, Structural)]
pub enum TickSignals {
    Scalping(ScalpingSignals),
    MeanReversion(MeanReversionSignals),
    /// No comparison was made: the strategy is unknown, or the bands of the
    /// mean-reversion strategy are not ready.
    Unavailable,
}

/// What a tick did to the run of a file.
#[derive(Debug, Clone, Copy, PartialEq, Eq, Structural)]
pub enum TickOutcome {
    /// The strategy is unknown: the rest of the file is skipped.
    Stop,
    /// The tick was run, with the trade it produced, if any.
    Continue(Option<Order>),
}

/// The trade limit per hour of a strategy (an unknown strategy never trades).
pub open spec fn trade_limit(strategy: Strategy) -> u64 {
    match strategy {
        Strategy::Scalping(l) => l.max_trades_per_hour,
        Strategy::MeanReversion(l) => l.max_trades_per_hour,
        Strategy::Unknown => 0,
    }
}

/// Whether the signals handed in at a tick are those the strategy reads: the
/// scalping comparisons for scalping, and the band comparisons for mean
/// reversion whenever its bands are ready.
pub open spec fn signals_fit(strategy: Strategy, history_len: nat, signals: TickSignals) -> bool {
    match strategy {
        Strategy::Scalping(_) => signals is Scalping,
        Strategy::MeanReversion(l) => spec_band_sample_size(history_len, l.ma_period) is Some
            ==> signals is MeanReversion,
        Strategy::Unknown => true,
    }
}

/// The decision of the run's strategy at a tick, given how many prices the
/// history holds before the tick; `None` when the strategy is unknown.  Mean
/// reversion does nothing until its bands are ready.
pub open spec fn tick_decision(
    strategy: Strategy,
    history_len: nat,
    timestamp_ms: i64,
    signals: TickSignals,
    position: Position,
    last_trade_time_ms: i64,
) -> Option<Decision> {
    match strategy {
        Strategy::Unknown => None,
        Strategy::Scalping(l) => match signals {
            TickSignals::Scalping(sig) => Some(
                scalping_decision(timestamp_ms, sig, l, position, last_trade_time_ms),
            ),
            _ => Some((None, position, last_trade_time_ms)),
        },
        Strategy::MeanReversion(l) => if spec_band_sample_size(history_len, l.ma_period) is None {
            Some((None, position, last_trade_time_ms))
        } else {
            match signals {
                TickSignals::MeanReversion(sig) => Some(
                    mean_reversion_decision(timestamp_ms, sig, l, position, last_trade_time_ms),
                ),
                _ => Some((None, position, last_trade_time_ms)),
            }
        },
    }
}

/// The run of the strategy over one dataset file: the price history of the
/// file, the time of the file's last trade, whether a tick was run, and (as
/// ghost state) the position side at the start of the file and the trades
/// of the file so far.
pub struct FileSession<T> {
    strategy: Strategy,
    history: PriceHistory<T>,
    last_trade_time_ms: i64,
    saw_tick: bool,
    start_side: Ghost<PositionSide>,
    orders: Ghost<Seq<Order>>,
}

impl<T> FileSession<T> {
    pub closed spec fn spec_strategy(self) -> Strategy {
        self.strategy
    }

    /// The prices of the file's history, oldest first.
    pub closed spec fn spec_history(self) -> Seq<T> {
        self.history@
    }

    pub closed spec fn spec_capacity(self) -> nat {
        self.history.spec_capacity()
    }

    pub closed spec fn spec_last_trade_time(self) -> i64 {
        self.last_trade_time_ms
    }

    /// Whether a tick of the file has been run.
    pub closed spec fn spec_saw_tick(self) -> bool {
        self.saw_tick
    }

    /// The position side when the file started.
    pub closed spec fn start_side(self) -> PositionSide {
        self.start_side@
    }

    /// The trades of the file so far, in order.
    pub closed spec fn orders(self) -> Seq<Order> {
        self.orders@
    }

    /// The history is within its capacity, the last trade time is not
    /// negative, and no trade is recorded before the first tick.
    pub closed spec fn wf(self) -> bool {
        &&& self.history.wf()
        &&& self.last_trade_time_ms >= 0
        &&& !self.saw_tick ==> self.orders@.len() == 0
    }

    /// Law: a session's history never holds more prices than its capacity.
    pub proof fn law_session_history_bounded(self)
        requires
            self.wf(),
        ensures
            self.spec_history().len() <= self.spec_capacity(),
    {
    }

    /// Whether `position` is the position that the file's trades lead to
    /// from the side at the start of the file.
    pub open spec fn consistent_with(self, position: Position) -> bool {
        &&& replay_from(self.start_side(), self.orders()) == Some(position.side)
        &&& position.wf()
    }

    /// Starts the run of a file: an empty history of `capacity` prices, no
    /// trade yet (the last trade time is 0), and `position` carried in from
    /// the previous file.
    pub fn new(strategy: Strategy, capacity: usize, position: &Position) -> (r: FileSession<T>)
        ensures
            r.wf(),
            r.spec_strategy() == strategy,
            r.spec_history() == Seq::<T>::empty(),
            r.spec_capacity() == capacity,
            r.spec_last_trade_time() == 0,
            !r.spec_saw_tick(),
            r.start_side() == position.side,
            r.orders() == Seq::<Order>::empty(),
            position.wf() ==> r.consistent_with(*position),
    {
        FileSession {
            strategy,
            history: PriceHistory::new(capacity),
            last_trade_time_ms: 0,
            saw_tick: false,
            start_side: Ghost(position.side),
            orders: Ghost(Seq::empty()),
        }
    }

    /// The run's strategy.
    pub fn strategy(&self) -> (r: Strategy)
        ensures
            r == self.spec_strategy(),
    {
        self.strategy
    }

    /// The number of prices in the file's history.
    pub fn history_len(&self) -> (r: usize)
        ensures
            r == self.spec_history().len(),
    {
        self.history.len()
    }

    /// The recent prices from which the mean-reversion bands are computed at
    /// this tick, newest first, or `None` when the strategy is not mean
    /// reversion or its bands are not ready.
    pub fn band_prices(&self) -> (r: Option<Vec<T>>) where T: Copy
        ensures
            match self.spec_strategy() {
                Strategy::MeanReversion(l) => match spec_band_sample_size(self.spec_history().len(), l.ma_period) {
                    Some(n) => r matches Some(v) && v@.len() == n && forall|i: int|
                        0 <= i < n ==> v@[i] == self.spec_history()[self.spec_history().len() - 1 - i],
                    None => r is None,
                },
                _ => r is None,
            },
    {
        match self.strategy {
            Strategy::MeanReversion(limits) => match band_sample_size(self.history.len(), limits.ma_period) {
                Some(n) => Some(self.history.recent(n)),
                None => None,
            },
            _ => None,
        }
    }

    /// Runs one tick whose mid price is `price`: the strategy decides, then
    /// the price joins the history.  An unknown strategy stops the file and
    /// changes nothing.
    pub fn on_tick(&mut self, timestamp_ms: i64, price: T, signals: TickSignals, position: &mut Position) -> (r: TickOutcome)
        requires
            old(self).wf(),
            old(self).consistent_with(*old(position)),
            timestamp_ms >= 0,
            signals_fit(old(self).spec_strategy(), old(self).spec_history().len(), signals),
        ensures
            final(self).wf(),
            final(self).consistent_with(*final(position)),
            final(self).spec_strategy() == old(self).spec_strategy(),
            final(self).spec_capacity() == old(self).spec_capacity(),
            final(self).start_side() == old(self).start_side(),
            r matches TickOutcome::Continue(Some(_)) ==> final(self).spec_last_trade_time() == timestamp_ms,
            r matches TickOutcome::Continue(None) ==> final(self).spec_last_trade_time() == old(
                self,
            ).spec_last_trade_time() && *final(position) == *old(position),
            (r matches TickOutcome::Continue(Some(o)) && o.kind == OrderKind::Entry) ==> old(
                position,
            ).side == PositionSide::Flat && timestamp_ms - old(self).spec_last_trade_time()
                >= spec_min_gap(trade_limit(old(self).spec_strategy())),
            match tick_decision(
                old(self).spec_strategy(),
                old(self).spec_history().len(),
                timestamp_ms,
                signals,
                *old(position),
                old(self).spec_last_trade_time(),
            ) {
                None => r == TickOutcome::Stop && *final(position) == *old(position)
                    && final(self).spec_history() == old(self).spec_history()
                    && final(self).spec_last_trade_time() == old(self).spec_last_trade_time()
                    && final(self).spec_saw_tick() == old(self).spec_saw_tick()
                    && final(self).orders() == old(self).orders(),
                Some((order, after, last)) => r == TickOutcome::Continue(order) && *final(position)
                    == after && final(self).spec_last_trade_time() == last && final(self).spec_history()
                    == history_push(old(self).spec_history(), price, old(self).spec_capacity())
                    && final(self).spec_saw_tick() && final(self).orders() == logged(
                    old(self).orders(),
                    order,
                ),
            },
    {
        let ghost before = *position;
        let order = match self.strategy {
            Strategy::Unknown => {
                return TickOutcome::Stop;
            },
            Strategy::Scalping(limits) => match signals {
                TickSignals::Scalping(sig) => execute_scalping_strategy(
                    timestamp_ms,
                    sig,
                    &limits,
                    position,
                    &mut self.last_trade_time_ms,
                ),
                _ => None,
            },
            Strategy::MeanReversion(limits) => match band_sample_size(self.history.len(), limits.ma_period) {
                None => None,
                Some(_) => match signals {
                    TickSignals::MeanReversion(sig) => execute_mean_reversion_strategy(
                        timestamp_ms,
                        sig,
                        &limits,
                        position,
                        &mut self.last_trade_time_ms,
                    ),
                    _ => None,
                },
            },
        };
        proof {
            lemma_logged_replay(self.start_side@, self.orders@, before.side, order, position.side);
        }
        self.orders = Ghost(logged(self.orders@, order));
        self.saw_tick = true;
        self.history.push(price);
        TickOutcome::Continue(order)
    }

    /// Ends the run of a file: when a tick was run, the open position, if
    /// any, is closed.  The file's trades then lead back to flat, and a file
    /// that started flat ends as a sequence of round trips.
    pub fn finish(self, position: &mut Position) -> (r: Option<Order>)
        requires
            self.wf(),
            self.consistent_with(*old(position)),
        ensures
            self.spec_saw_tick() ==> r == spec_close_order(*old(position)) && (if old(position).side
                == PositionSide::Flat {
                *final(position) == *old(position)
            } else {
                *final(position) == Position::spec_flat()
            }) && replay_from(self.start_side(), logged(self.orders(), r)) == Some(PositionSide::Flat),
            final(position).wf(),
            !self.spec_saw_tick() ==> r is None && *final(position) == *old(position)
                && self.orders().len() == 0,
            self.start_side() == PositionSide::Flat ==> final(position).side == PositionSide::Flat
                && paired(logged(self.orders(), r)),
    {
        if !self.saw_tick {
            return None;
        }
        let ghost before = *position;
        let r = close_open_position(position);
        proof {
            lemma_logged_replay(self.start_side@, self.orders@, before.side, r, position.side);
            if self.start_side@ == PositionSide::Flat {
                lemma_replay_shape(logged(self.orders@, r));
            }
        }
        r
    }
}

} // verus!
