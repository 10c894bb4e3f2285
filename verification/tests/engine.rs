use hft_backtest::engine::{
    band_sample_size, close_open_position, execute_mean_reversion_strategy, execute_scalping_strategy,
    history_capacity, holding_times, min_time_between_trades, MeanReversionLimits, MeanReversionSignals,
    Order, OrderKind, Position, PositionSide, PriceHistory, ScalpingLimits, ScalpingSignals, StrategyKind,
    TradeSide,
};

fn scalping(price_exit: bool, calm_spread: bool, narrow_spread: bool) -> ScalpingSignals {
    ScalpingSignals { price_exit, calm_spread, narrow_spread }
}

fn reversion(price_exit: bool, below: bool, above: bool) -> MeanReversionSignals {
    MeanReversionSignals { price_exit, below_lower_band: below, above_upper_band: above }
}

const ENTRY_BUY: Order = Order { side: TradeSide::Buy, kind: OrderKind::Entry };
const ENTRY_SELL: Order = Order { side: TradeSide::Sell, kind: OrderKind::Entry };
const EXIT_BUY: Order = Order { side: TradeSide::Buy, kind: OrderKind::Exit };
const EXIT_SELL: Order = Order { side: TradeSide::Sell, kind: OrderKind::Exit };

#[test]
fn strategy_names() {
    assert_eq!(StrategyKind::from_name("scalping"), StrategyKind::Scalping);
    assert_eq!(StrategyKind::from_name("mean_reversion"), StrategyKind::MeanReversion);
    assert_eq!(StrategyKind::from_name("Scalping"), StrategyKind::Unknown);
    assert_eq!(StrategyKind::from_name("momentum"), StrategyKind::Unknown);
    assert_eq!(StrategyKind::from_name(""), StrategyKind::Unknown);
    assert_eq!(StrategyKind::from_name("scalping "), StrategyKind::Unknown);
}

#[test]
fn gap_between_trades() {
    assert_eq!(min_time_between_trades(0), 3_600_000);
    assert_eq!(min_time_between_trades(1), 3_600_000);
    assert_eq!(min_time_between_trades(120), 30_000);
    assert_eq!(min_time_between_trades(40), 90_000);
    assert_eq!(min_time_between_trades(7), 514_285);
    assert_eq!(min_time_between_trades(5_000_000), 0);
    for m in [u64::MAX, u64::MAX - 6, 1u64 << 63, (1u64 << 63) + 1, i64::MAX as u64] {
        assert_eq!(min_time_between_trades(m), 3_600_000 / m.max(1) as i64, "limit {}", m);
    }
}

#[test]
fn limits_defaults() {
    let s = ScalpingLimits::resolve(None, None);
    assert_eq!(s, ScalpingLimits { max_trades_per_hour: 120, max_hold_ms: 60_000 });
    let s = ScalpingLimits::resolve(Some(10), Some(-5));
    assert_eq!(s, ScalpingLimits { max_trades_per_hour: 10, max_hold_ms: -5 });
    let m = MeanReversionLimits::resolve(None, None, None);
    assert_eq!(m, MeanReversionLimits { ma_period: 50, max_trades_per_hour: 40, max_hold_ms: 900_000 });
    let m = MeanReversionLimits::resolve(Some(3), Some(2), Some(1));
    assert_eq!(m, MeanReversionLimits { ma_period: 3, max_trades_per_hour: 2, max_hold_ms: 1 });
    assert_eq!(history_capacity(None), 1000);
    assert_eq!(history_capacity(Some(7)), 7);
}

#[test]
fn scalping_enters_on_narrow_spread_after_gap() {
    let limits = ScalpingLimits::resolve(None, None);
    let mut pos = Position::flat();
    let mut last = 0i64;
    // too early: 29 999 ms since the last trade at 0
    assert_eq!(execute_scalping_strategy(29_999, scalping(false, true, true), &limits, &mut pos, &mut last), None);
    assert_eq!(pos, Position::flat());
    assert_eq!(last, 0);
    // spread too wide
    assert_eq!(execute_scalping_strategy(30_000, scalping(false, true, false), &limits, &mut pos, &mut last), None);
    // entry
    assert_eq!(
        execute_scalping_strategy(30_000, scalping(false, true, true), &limits, &mut pos, &mut last),
        Some(ENTRY_BUY)
    );
    assert_eq!(pos, Position { side: PositionSide::Long, entry_time_ms: 30_000 });
    assert_eq!(last, 30_000);
    // no second entry while long
    assert_eq!(
        execute_scalping_strategy(100_000, scalping(false, false, true), &limits, &mut pos, &mut last),
        None
    );
    assert_eq!(pos.side, PositionSide::Long);
}

#[test]
fn scalping_exits_on_price_or_time() {
    let limits = ScalpingLimits::resolve(None, None);
    let mut pos = Position { side: PositionSide::Long, entry_time_ms: 1_000 };
    let mut last = 1_000i64;
    // price exit
    assert_eq!(
        execute_scalping_strategy(2_000, scalping(true, false, false), &limits, &mut pos, &mut last),
        Some(EXIT_SELL)
    );
    assert_eq!(pos, Position::flat());
    assert_eq!(last, 2_000);

    let mut pos = Position { side: PositionSide::Long, entry_time_ms: 1_000 };
    let mut last = 1_000i64;
    // held long enough, but spread not calm
    assert_eq!(
        execute_scalping_strategy(61_000, scalping(false, false, true), &limits, &mut pos, &mut last),
        None
    );
    // held 59 999 ms: not long enough
    assert_eq!(
        execute_scalping_strategy(60_999, scalping(false, true, true), &limits, &mut pos, &mut last),
        None
    );
    // held 60 000 ms with a calm spread
    assert_eq!(
        execute_scalping_strategy(61_000, scalping(false, true, true), &limits, &mut pos, &mut last),
        Some(EXIT_SELL)
    );
    assert_eq!(pos, Position::flat());
    // an exit does not re-enter on the same tick, and the gap starts again
    assert_eq!(
        execute_scalping_strategy(61_001, scalping(false, true, true), &limits, &mut pos, &mut last),
        None
    );
}

#[test]
fn scalping_leaves_a_short_position_alone() {
    let limits = ScalpingLimits::resolve(None, None);
    let short = Position { side: PositionSide::Short, entry_time_ms: 5 };
    let mut pos = short;
    let mut last = 5i64;
    assert_eq!(
        execute_scalping_strategy(10_000_000, scalping(true, true, true), &limits, &mut pos, &mut last),
        None
    );
    assert_eq!(pos, short);
    assert_eq!(last, 5);
}

#[test]
fn mean_reversion_entries_and_exits() {
    let limits = MeanReversionLimits::resolve(None, None, None);
    let mut pos = Position::flat();
    let mut last = 0i64;
    assert_eq!(
        execute_mean_reversion_strategy(89_999, reversion(false, true, false), &limits, &mut pos, &mut last),
        None
    );
    assert_eq!(
        execute_mean_reversion_strategy(90_000, reversion(false, false, false), &limits, &mut pos, &mut last),
        None
    );
    assert_eq!(
        execute_mean_reversion_strategy(90_000, reversion(false, false, true), &limits, &mut pos, &mut last),
        Some(ENTRY_SELL)
    );
    assert_eq!(pos, Position { side: PositionSide::Short, entry_time_ms: 90_000 });
    // held 15 minutes: closed by a buy
    assert_eq!(
        execute_mean_reversion_strategy(990_000, reversion(false, false, false), &limits, &mut pos, &mut last),
        Some(EXIT_BUY)
    );
    assert_eq!(pos, Position::flat());
    assert_eq!(last, 990_000);
    // below the lower band after the gap: long; the lower band wins over the upper
    assert_eq!(
        execute_mean_reversion_strategy(1_080_000, reversion(false, true, true), &limits, &mut pos, &mut last),
        Some(ENTRY_BUY)
    );
    assert_eq!(pos.side, PositionSide::Long);
    assert_eq!(
        execute_mean_reversion_strategy(1_080_001, reversion(true, false, false), &limits, &mut pos, &mut last),
        Some(EXIT_SELL)
    );
    assert_eq!(pos, Position::flat());
}

#[test]
fn band_readiness() {
    assert_eq!(band_sample_size(49, 50), None);
    assert_eq!(band_sample_size(50, 50), Some(50));
    assert_eq!(band_sample_size(1000, 50), Some(50));
    assert_eq!(band_sample_size(10, 0), None);
    assert_eq!(band_sample_size(0, 0), None);
}

#[test]
fn closing_at_end_of_file() {
    let mut pos = Position { side: PositionSide::Long, entry_time_ms: 7 };
    assert_eq!(close_open_position(&mut pos), Some(EXIT_SELL));
    assert_eq!(pos, Position::flat());
    let mut pos = Position { side: PositionSide::Short, entry_time_ms: 7 };
    assert_eq!(close_open_position(&mut pos), Some(EXIT_BUY));
    assert_eq!(pos, Position::flat());
    assert_eq!(close_open_position(&mut pos), None);
    assert_eq!(pos, Position::flat());
}

#[test]
fn price_history_keeps_the_latest() {
    let mut h: PriceHistory<i32> = PriceHistory::new(3);
    assert_eq!(h.len(), 0);
    for x in 1..=5 {
        h.push(x);
    }
    assert_eq!(h.len(), 3);
    assert_eq!(h.recent(2), vec![5, 4]);
    assert_eq!(h.recent(10), vec![5, 4, 3]);
    assert_eq!(h.recent(0), Vec::<i32>::new());
    let mut none: PriceHistory<f64> = PriceHistory::new(0);
    none.push(1.5);
    assert_eq!(none.len(), 0);
}

#[test]
fn holding_times_are_positive_gaps() {
    assert_eq!(holding_times(&vec![]), Vec::<i64>::new());
    assert_eq!(holding_times(&vec![5]), Vec::<i64>::new());
    assert_eq!(holding_times(&vec![10, 30, 30, 25, 100]), vec![20, 75]);
}

#[test]
fn trade_log_alternates_over_a_run() {
    // a scripted run: every order fits the position before it
    let limits = MeanReversionLimits::resolve(Some(1), Some(3_600_000), Some(100));
    let mut pos = Position::flat();
    let mut last = 0i64;
    let mut log = Vec::new();
    let script = [
        (1, reversion(false, true, false)),
        (2, reversion(true, false, true)),
        (3, reversion(false, false, true)),
        (4, reversion(false, false, false)),
        (200, reversion(false, true, false)),
        (201, reversion(false, true, false)),
    ];
    for (ts, sig) in script {
        if let Some(o) = execute_mean_reversion_strategy(ts, sig, &limits, &mut pos, &mut last) {
            log.push(o);
        }
    }
    if let Some(o) = close_open_position(&mut pos) {
        log.push(o);
    }
    assert_eq!(log, vec![ENTRY_BUY, EXIT_SELL, ENTRY_SELL, EXIT_BUY, ENTRY_BUY, EXIT_SELL]);
    assert_eq!(pos, Position::flat());
}

use hft_backtest::engine::{FileSession, Strategy, TickOutcome, TickSignals};

#[test]
fn strategy_configuration() {
    assert_eq!(
        Strategy::configure(StrategyKind::Scalping, Some(9), None, None),
        Strategy::Scalping(ScalpingLimits { max_trades_per_hour: 120, max_hold_ms: 60_000 })
    );
    assert_eq!(
        Strategy::configure(StrategyKind::MeanReversion, None, Some(3), Some(4)),
        Strategy::MeanReversion(MeanReversionLimits { ma_period: 50, max_trades_per_hour: 3, max_hold_ms: 4 })
    );
    assert_eq!(Strategy::configure(StrategyKind::Unknown, None, None, None), Strategy::Unknown);
}

#[test]
fn unknown_strategy_stops_the_file() {
    let mut pos = Position::flat();
    let mut s: FileSession<f64> = FileSession::new(Strategy::Unknown, 10, &pos);
    assert_eq!(s.on_tick(5, 1.0, TickSignals::Unavailable, &mut pos), TickOutcome::Stop);
    assert_eq!(s.history_len(), 0);
    assert_eq!(s.finish(&mut pos), None);
    assert_eq!(pos, Position::flat());
}

#[test]
fn mean_reversion_session_waits_for_bands_and_closes_at_end() {
    let strategy = Strategy::configure(StrategyKind::MeanReversion, Some(2), Some(3_600_000), Some(1_000));
    let mut pos = Position::flat();
    let mut s: FileSession<i32> = FileSession::new(strategy, 3, &pos);
    // not ready: no bands, and a signal would be ignored
    assert_eq!(s.band_prices(), None);
    assert_eq!(s.on_tick(1, 10, TickSignals::Unavailable, &mut pos), TickOutcome::Continue(None));
    assert_eq!(s.band_prices(), None);
    assert_eq!(
        s.on_tick(2, 11, TickSignals::MeanReversion(reversion(false, true, false)), &mut pos),
        TickOutcome::Continue(None)
    );
    // ready: the two newest prices, newest first
    assert_eq!(s.band_prices(), Some(vec![11, 10]));
    assert_eq!(
        s.on_tick(3, 12, TickSignals::MeanReversion(reversion(false, true, false)), &mut pos),
        TickOutcome::Continue(Some(ENTRY_BUY))
    );
    assert_eq!(pos, Position { side: PositionSide::Long, entry_time_ms: 3 });
    assert_eq!(s.on_tick(4, 13, TickSignals::MeanReversion(reversion(false, false, false)), &mut pos), TickOutcome::Continue(None));
    assert_eq!(s.history_len(), 3);
    assert_eq!(s.band_prices(), Some(vec![13, 12]));
    assert_eq!(s.finish(&mut pos), Some(EXIT_SELL));
    assert_eq!(pos, Position::flat());
}

#[test]
fn scalping_session_runs_and_closes() {
    let strategy = Strategy::configure(StrategyKind::Scalping, None, None, None);
    let mut pos = Position::flat();
    let mut s: FileSession<f64> = FileSession::new(strategy, 1000, &pos);
    assert_eq!(s.band_prices(), None);
    assert_eq!(
        s.on_tick(30_000, 1.0, TickSignals::Scalping(scalping(false, true, true)), &mut pos),
        TickOutcome::Continue(Some(ENTRY_BUY))
    );
    assert_eq!(
        s.on_tick(30_001, 1.0, TickSignals::Scalping(scalping(false, true, true)), &mut pos),
        TickOutcome::Continue(None)
    );
    assert_eq!(s.finish(&mut pos), Some(EXIT_SELL));
    assert_eq!(pos, Position::flat());
}

#[test]
fn session_without_ticks_changes_nothing() {
    let mut pos = Position::flat();
    let s: FileSession<f64> = FileSession::new(Strategy::configure(StrategyKind::Scalping, None, None, None), 5, &pos);
    assert_eq!(s.finish(&mut pos), None);
    assert_eq!(pos, Position::flat());
}
