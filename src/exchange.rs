//! Exchange-facing values: orders, candle intervals and decimal quotes.
use vstd::prelude::*;
use crate::fixed::{is_amount, units_of, units_from_parts};
use crate::types::{Candle, Timeframe};

verus! {

#[derive(Debug, Clone, Copy, PartialEq, Eq, Structural)]
pub enum OrderSide {
    Buy,
    Sell,
}

#[derive(Debug, Clone, Copy, PartialEq, Eq, Structural)]
pub enum OrderType {
    Market,
    Limit,
    StopLoss,
    TakeProfit,
}

#[derive(Debug, Clone, Copy, PartialEq, Eq, Structural)]
pub enum OrderStatus {
    New,
    PartiallyFilled,
    Filled,
    Canceled,
    Rejected,
}

/// Kline interval code of Bybit's v5 API.
pub open spec fn bybit_interval_spec(tf: Timeframe) -> Seq<char> {
    match tf {
        Timeframe::M1 => "1"@,
        Timeframe::M5 => "5"@,
        Timeframe::M15 => "15"@,
        Timeframe::M30 => "30"@,
        Timeframe::H1 => "60"@,
        Timeframe::H4 => "240"@,
        Timeframe::D1 => "D"@,
    }
}

/// Kline interval code of Binance's v3 API.
pub open spec fn binance_interval_spec(tf: Timeframe) -> Seq<char> {
    match tf {
        Timeframe::M1 => "1m"@,
        Timeframe::M5 => "5m"@,
        Timeframe::M15 => "15m"@,
        Timeframe::M30 => "30m"@,
        Timeframe::H1 => "1h"@,
        Timeframe::H4 => "4h"@,
        Timeframe::D1 => "1d"@,
    }
}

pub fn bybit_interval(timeframe: Timeframe) -> (r: &'static str)
    ensures
        r@ == bybit_interval_spec(timeframe),
{
    match timeframe {
        Timeframe::M1 => "1",
        Timeframe::M5 => "5",
        Timeframe::M15 => "15",
        Timeframe::M30 => "30",
        Timeframe::H1 => "60",
        Timeframe::H4 => "240",
        Timeframe::D1 => "D",
    }
}

pub fn binance_interval(timeframe: Timeframe) -> (r: &'static str)
    ensures
        r@ == binance_interval_spec(timeframe),
{
    match timeframe {
        Timeframe::M1 => "1m",
        Timeframe::M5 => "5m",
        Timeframe::M15 => "15m",
        Timeframe::M30 => "30m",
        Timeframe::H1 => "1h",
        Timeframe::H4 => "4h",
        Timeframe::D1 => "1d",
    }
}

/// Mantissa and scale of the decimal written in `s`, if it is one.
pub uninterp spec fn decimal_parts(s: Seq<char>) -> Option<(i128, u32)>;

/// Relies on rust_decimal's `Decimal::from_str`, `mantissa` and `scale`:
/// the decimal written in `s` as a mantissa below 2^96 in magnitude and a
/// scale of at most 28; `None` when `s` is no decimal.
#[verifier::external_body]
fn parse_decimal(s: &str) -> (r: Option<(i128, u32)>)
    ensures
        r == decimal_parts(s@),
        r matches Some((m, e)) ==> e <= 28 && -0x1_0000_0000_0000_0000_0000_0000 < m
            < 0x1_0000_0000_0000_0000_0000_0000,
{
    match <rust_decimal::Decimal as core::str::FromStr>::from_str(s) {
        Ok(d) => Some((d.mantissa(), d.scale())),
        Err(_) => None,
    }
}

/// The amount a decimal's parts stand for, when within range.
pub open spec fn amount_of(parts: Option<(i128, u32)>) -> Option<int> {
    match parts {
        Some((m, e)) => if e <= 28 && is_amount(units_of(m as int, e as nat)) {
            Some(units_of(m as int, e as nat))
        } else {
            None
        },
        None => None,
    }
}

/// The amount written in `s`, truncated to eight decimals; `None` when `s`
/// is no decimal or the amount is out of range.
pub fn parse_amount(s: &str) -> (r: Option<i64>)
    ensures
        r matches Some(x) ==> amount_of(decimal_parts(s@)) == Some(x as int),
        r is None ==> amount_of(decimal_parts(s@)) is None,
{
    match parse_decimal(s) {
        Some((m, e)) => units_from_parts(m, e),
        None => None,
    }
}

/// The amount written in `s`, or zero when there is none.
pub open spec fn amount_or_zero(s: Seq<char>) -> int {
    match amount_of(decimal_parts(s)) {
        Some(x) => x,
        None => 0,
    }
}

fn amount_or_zero_exec(s: &str) -> (r: i64)
    ensures
        r == amount_or_zero(s@),
{
    match parse_amount(s) {
        Some(x) => x,
        None => 0,
    }
}

impl Candle {
    /// A candle from the decimal strings of an exchange's kline; a field
    /// that is no decimal in range reads as zero.
    pub fn from_quotes(timestamp: i64, open: &str, high: &str, low: &str, close: &str, volume: &str) -> (r: Candle)
        ensures
            r.timestamp == timestamp,
            r.open == amount_or_zero(open@),
            r.high == amount_or_zero(high@),
            r.low == amount_or_zero(low@),
            r.close == amount_or_zero(close@),
            r.volume == amount_or_zero(volume@),
    {
        Candle {
            timestamp,
            open: amount_or_zero_exec(open),
            high: amount_or_zero_exec(high),
            low: amount_or_zero_exec(low),
            close: amount_or_zero_exec(close),
            volume: amount_or_zero_exec(volume),
        }
    }
}

} // verus!
