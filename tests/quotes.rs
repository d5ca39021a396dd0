use hyrotrader::exchange::{binance_interval, bybit_interval, parse_amount};
use hyrotrader::fixed::units_from_parts;
use hyrotrader::types::{Candle, Timeframe};

#[test]
fn units_from_decimal_parts() {
    assert_eq!(units_from_parts(12345, 2), Some(12_345_000_000));
    assert_eq!(units_from_parts(-123456789012, 10), Some(-1_234_567_890));
    assert_eq!(units_from_parts(2_000_000_000, 0), None);
}

#[test]
fn amounts_from_text() {
    assert_eq!(parse_amount("123.45"), Some(12_345_000_000));
    assert_eq!(parse_amount("-0.000000019"), Some(-1));
    assert_eq!(parse_amount("abc"), None);
    assert_eq!(parse_amount("2000000000"), None);
}

#[test]
fn candle_from_kline_strings() {
    let c = Candle::from_quotes(7, "100.5", "101", "99.25", "100", "x");
    assert_eq!(c.timestamp, 7);
    assert_eq!(c.open, 10_050_000_000);
    assert_eq!(c.high, 10_100_000_000);
    assert_eq!(c.low, 9_925_000_000);
    assert_eq!(c.close, 10_000_000_000);
    assert_eq!(c.volume, 0);
}

#[test]
fn interval_codes() {
    assert_eq!(bybit_interval(Timeframe::H1), "60");
    assert_eq!(bybit_interval(Timeframe::D1), "D");
    assert_eq!(binance_interval(Timeframe::M15), "15m");
    assert_eq!(binance_interval(Timeframe::H4), "4h");
}
