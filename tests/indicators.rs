use hyrotrader::fixed::SCALE;
use hyrotrader::types::{Candle, MarketData, Timeframe, TrendDirection};
use hyrotrader::TradingError;

fn candle(high: i64, low: i64, close: i64, volume: i64) -> Candle {
    Candle { timestamp: 0, open: close, high, low, close, volume }
}

fn series(candles: Vec<Candle>, timeframe: Timeframe) -> MarketData {
    MarketData::from_candles("BTCUSDT".to_string(), candles, timeframe).unwrap()
}

fn three() -> MarketData {
    series(
        vec![candle(110, 90, 100, 5), candle(120, 100, 115, 7), candle(118, 105, 110, 9)],
        Timeframe::H1,
    )
}

#[test]
fn timeframe_minutes() {
    assert_eq!(Timeframe::M1.to_minutes(), 1);
    assert_eq!(Timeframe::M15.to_minutes(), 15);
    assert_eq!(Timeframe::H4.to_minutes(), 240);
    assert_eq!(Timeframe::D1.to_minutes(), 1440);
}

#[test]
fn candle_shape() {
    let c = Candle { timestamp: 1, open: 100, high: 130, low: 90, close: 120, volume: 1 };
    assert_eq!(c.range(), 40);
    assert_eq!(c.body(), 20);
    assert!(c.is_bullish());
    assert!(!c.is_bearish());
    let d = Candle { timestamp: 1, open: 120, high: 130, low: 90, close: 100, volume: 1 };
    assert_eq!(d.body(), 20);
    assert!(d.is_bearish());
}

#[test]
fn malformed_series_is_rejected() {
    let bad = vec![candle(90, 110, 100, 1)];
    let r = MarketData::from_candles("X".to_string(), bad, Timeframe::M5);
    assert!(matches!(r, Err(TradingError::InvalidInput)));
}

#[test]
fn close_and_volume_of_empty_series() {
    let m = MarketData::new("ETHUSDT".to_string(), Timeframe::M5);
    assert_eq!(m.close(), 0);
    assert_eq!(m.current_volume(), 0);
    assert!(m.last_candle().is_none());
}

#[test]
fn atr_mean_true_range() {
    // true ranges 20 and 13, truncated mean 16
    assert_eq!(three().atr(2), 16);
    assert_eq!(three().atr(3), 0);
}

#[test]
fn ema_seed_and_step() {
    // seed (100 + 115) / 2 = 107, then 107 + (110 - 107) * 2 / 3 = 109
    assert_eq!(three().ema(2), 109);
    assert_eq!(three().ema(5), 110);
}

#[test]
fn rsi_ratio_and_defaults() {
    assert_eq!(three().rsi(2), 75 * SCALE);
    assert_eq!(three().rsi(5), 50 * SCALE);
    let up = series(vec![candle(10, 5, 6, 1), candle(12, 6, 8, 1)], Timeframe::H1);
    assert_eq!(up.rsi(1), 100 * SCALE);
}

#[test]
fn adx_directional_index() {
    assert_eq!(three().adx(2), 100 * SCALE);
    assert_eq!(three().adx(4), 0);
    let flat = series(vec![candle(10, 10, 10, 1), candle(10, 10, 10, 1)], Timeframe::H1);
    assert_eq!(flat.adx(1), 0);
}

#[test]
fn volume_and_range_means() {
    assert_eq!(three().volume_sma(2), 8);
    assert_eq!(three().volume_sma(4), 9);
    assert_eq!(three().average_range(3), 17);
    assert_eq!(three().average_range(4), 0);
}

#[test]
fn day_volume_counts_last_day() {
    let candles: Vec<Candle> = (0..30).map(|_| candle(10, 5, 7, 2)).collect();
    assert_eq!(series(candles.clone(), Timeframe::H1).volume_24h(), 48);
    assert_eq!(series(candles, Timeframe::M5).volume_24h(), 60);
}

#[test]
fn trend_follows_averages() {
    let up: Vec<Candle> = (1..=60).map(|i| candle(i * 10 + 5, i * 10 - 5, i * 10, 1)).collect();
    assert_eq!(series(up, Timeframe::H1).trend_direction(), TrendDirection::Long);
    let down: Vec<Candle> = (1..=60).map(|i| candle(1000 - i * 10 + 5, 1000 - i * 10 - 5, 1000 - i * 10, 1)).collect();
    assert_eq!(series(down, Timeframe::H1).trend_direction(), TrendDirection::Short);
    let short: Vec<Candle> = (1..=49).map(|i| candle(i * 10 + 5, i * 10 - 5, i * 10, 1)).collect();
    assert_eq!(series(short, Timeframe::H1).trend_direction(), TrendDirection::Neutral);
}

#[test]
fn structure_break_on_breakout() {
    let mut candles: Vec<Candle> = (0..21).map(|_| candle(105, 95, 100, 1)).collect();
    candles.push(candle(111, 99, 110, 1));
    assert!(series(candles.clone(), Timeframe::H1).has_structure_break());
    candles.pop();
    candles.push(candle(106, 99, 104, 1));
    assert!(!series(candles.clone(), Timeframe::H1).has_structure_break());
    candles.pop();
    candles.push(candle(101, 89, 90, 1));
    assert!(series(candles, Timeframe::H1).has_structure_break());
    let few: Vec<Candle> = (0..19).map(|_| candle(105, 95, 100, 1)).collect();
    assert!(!series(few, Timeframe::H1).has_structure_break());
}

#[test]
fn placeholder_market_figures() {
    let m = three();
    assert_eq!(m.orderbook_depth(10), 1_000_000 * SCALE);
    assert_eq!(m.spread_bps(), 5 * SCALE);
}
