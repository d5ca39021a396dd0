//! Candles, candle series and the indicators computed over them.
use vstd::prelude::*;
use crate::TradingError;
use crate::fixed::{is_amount, abs, tdiv, lemma_tdiv_bound, AMOUNT_LIMIT, SCALE};

verus! {

/// Direction of a trade or of the prevailing trend.
#[derive(Debug, Clone, Copy, PartialEq, Eq, Structural)]
pub enum TrendDirection {
    Long,
    Short,
    Neutral,
}

/// Candle interval.
#[derive(Debug, Clone, Copy, PartialEq, Eq, Structural)]
pub enum Timeframe {
    M1,
    M5,
    M15,
    M30,
    H1,
    H4,
    D1,
}

impl Timeframe {
    /// Length of the interval in minutes.
    pub open spec fn minutes(self) -> nat {
        match self {
            Timeframe::M1 => 1,
            Timeframe::M5 => 5,
            Timeframe::M15 => 15,
            Timeframe::M30 => 30,
            Timeframe::H1 => 60,
            Timeframe::H4 => 240,
            Timeframe::D1 => 1440,
        }
    }

    pub fn to_minutes(&self) -> (r: u32)
        ensures
            r == self.minutes(),
    {
        match self {
            Timeframe::M1 => 1,
            Timeframe::M5 => 5,
            Timeframe::M15 => 15,
            Timeframe::M30 => 30,
            Timeframe::H1 => 60,
            Timeframe::H4 => 240,
            Timeframe::D1 => 1440,
        }
    }
}


/// Largest number of candles a series may hold.
pub const MAX_CANDLES: usize = 1_000_000;

/// One interval of market prices; all amounts are fixed-point.
#[derive(Debug, Clone, Copy)]
pub struct Candle {
    pub timestamp: i64,
    pub open: i64,
    pub high: i64,
    pub low: i64,
    pub close: i64,
    pub volume: i64,
}

impl Candle {
    /// Every price and the volume lie within the amount range.
    pub open spec fn wf(&self) -> bool {
        &&& is_amount(self.open as int)
        &&& is_amount(self.high as int)
        &&& is_amount(self.low as int)
        &&& is_amount(self.close as int)
        &&& is_amount(self.volume as int)
        &&& self.low <= self.high
    }

    pub fn range(&self) -> (r: i64)
        requires
            self.wf(),
        ensures
            r == self.high - self.low,
    {
        self.high - self.low
    }

    pub fn body(&self) -> (r: i64)
        requires
            self.wf(),
        ensures
            r == abs(self.close - self.open),
    {
        if self.close >= self.open {
            self.close - self.open
        } else {
            self.open - self.close
        }
    }

    pub fn is_bullish(&self) -> (r: bool)
        ensures
            r == (self.close > self.open),
    {
        self.close > self.open
    }

    /// Whether every field lies in range and the low is not above the high.
    pub fn is_valid(&self) -> (r: bool)
        ensures
            r == self.wf(),
    {
        let lim = AMOUNT_LIMIT;
        -lim <= self.open && self.open <= lim && -lim <= self.high && self.high <= lim && -lim <= self.low
            && self.low <= lim && -lim <= self.close && self.close <= lim && -lim <= self.volume
            && self.volume <= lim && self.low <= self.high
    }

    pub fn is_bearish(&self) -> (r: bool)
        ensures
            r == (self.close < self.open),
    {
        self.close < self.open
    }
}

/// Every candle of the series is well formed.
pub open spec fn candles_wf(s: Seq<Candle>) -> bool {
    &&& s.len() <= MAX_CANDLES
    &&& forall|i: int| 0 <= i < s.len() ==> #[trigger] s[i].wf()
}

/// Close of the last candle, zero for an empty series.
pub open spec fn last_close(s: Seq<Candle>) -> int {
    if s.len() == 0 {
        0
    } else {
        s.last().close as int
    }
}

/// Volume of the last candle, zero for an empty series.
pub open spec fn last_volume(s: Seq<Candle>) -> int {
    if s.len() == 0 {
        0
    } else {
        s.last().volume as int
    }
}

pub open spec fn max3(a: int, b: int, c: int) -> int {
    if a >= b && a >= c {
        a
    } else if b >= c {
        b
    } else {
        c
    }
}

/// True range of candle `i` against the close of candle `i - 1`.
pub open spec fn true_range(s: Seq<Candle>, i: int) -> int {
    max3(
        s[i].high - s[i].low,
        abs(s[i].high - s[i - 1].close),
        abs(s[i].low - s[i - 1].close),
    )
}

/// Sum of the true ranges of candles `lo .. hi`.
pub open spec fn sum_true_range(s: Seq<Candle>, lo: int, hi: int) -> int
    decreases hi - lo,
{
    if hi <= lo {
        0
    } else {
        sum_true_range(s, lo, hi - 1) + true_range(s, hi - 1)
    }
}

/// Mean true range over the last `period` candles; zero with fewer than
/// `period + 1` candles.
pub open spec fn atr_spec(s: Seq<Candle>, period: int) -> int {
    if s.len() < period + 1 {
        0
    } else {
        sum_true_range(s, s.len() - period, s.len() as int) / period
    }
}

/// Sum of the closes of candles `lo .. hi`.
pub open spec fn sum_closes(s: Seq<Candle>, lo: int, hi: int) -> int
    decreases hi - lo,
{
    if hi <= lo {
        0
    } else {
        sum_closes(s, lo, hi - 1) + s[hi - 1].close
    }
}

/// Sum of the volumes of candles `lo .. hi`.
pub open spec fn sum_volumes(s: Seq<Candle>, lo: int, hi: int) -> int
    decreases hi - lo,
{
    if hi <= lo {
        0
    } else {
        sum_volumes(s, lo, hi - 1) + s[hi - 1].volume
    }
}

/// Sum of the ranges (high minus low) of candles `lo .. hi`.
pub open spec fn sum_ranges(s: Seq<Candle>, lo: int, hi: int) -> int
    decreases hi - lo,
{
    if hi <= lo {
        0
    } else {
        sum_ranges(s, lo, hi - 1) + (s[hi - 1].high - s[hi - 1].low)
    }
}

/// One step of the exponential average: it moves `2 / (period + 1)` of the
/// way from `prev` toward `close`.
pub open spec fn ema_step(prev: int, close: int, period: int) -> int {
    prev + tdiv((close - prev) * 2, period + 1)
}

/// Exponential average through the first `k` candles, seeded with the mean
/// close of the first `period` candles.
pub open spec fn ema_through(s: Seq<Candle>, period: int, k: int) -> int
    decreases k - period,
{
    if k <= period {
        tdiv(sum_closes(s, 0, period), period)
    } else {
        ema_step(ema_through(s, period, k - 1), s[k - 1].close as int, period)
    }
}

/// Exponential average of the closes; the last close with fewer than
/// `period` candles.
pub open spec fn ema_spec(s: Seq<Candle>, period: int) -> int {
    if s.len() < period {
        last_close(s)
    } else {
        ema_through(s, period, s.len() as int)
    }
}

/// Mean volume of the last `period` candles; the last volume with fewer
/// than `period` candles.
pub open spec fn volume_sma_spec(s: Seq<Candle>, period: int) -> int {
    if s.len() < period {
        last_volume(s)
    } else {
        tdiv(sum_volumes(s, s.len() - period, s.len() as int), period)
    }
}

/// Mean range of the last `period` candles; zero with fewer than `period`.
pub open spec fn average_range_spec(s: Seq<Candle>, period: int) -> int {
    if s.len() < period {
        0
    } else {
        tdiv(sum_ranges(s, s.len() - period, s.len() as int), period)
    }
}

/// Change of close from candle `i - 1` to candle `i`.
pub open spec fn close_change(s: Seq<Candle>, i: int) -> int {
    s[i].close - s[i - 1].close
}

/// Sum of the rises of the close over candles `lo .. hi`.
pub open spec fn sum_gains(s: Seq<Candle>, lo: int, hi: int) -> int
    decreases hi - lo,
{
    if hi <= lo {
        0
    } else {
        sum_gains(s, lo, hi - 1) + (if close_change(s, hi - 1) > 0 {
            close_change(s, hi - 1)
        } else {
            0
        })
    }
}

/// Sum of the falls of the close over candles `lo .. hi`, as a magnitude.
pub open spec fn sum_losses(s: Seq<Candle>, lo: int, hi: int) -> int
    decreases hi - lo,
{
    if hi <= lo {
        0
    } else {
        sum_losses(s, lo, hi - 1) + (if close_change(s, hi - 1) > 0 {
            0
        } else {
            -close_change(s, hi - 1)
        })
    }
}

/// Relative strength index over the last `period` changes, as a
/// fixed-point percentage: `100 * gains / (gains + losses)`, 100 when
/// nothing fell, 50 with fewer than `period + 1` candles.
pub open spec fn rsi_spec(s: Seq<Candle>, period: int) -> int {
    if s.len() < period + 1 {
        50 * SCALE
    } else {
        let g = sum_gains(s, s.len() - period, s.len() as int);
        let l = sum_losses(s, s.len() - period, s.len() as int);
        if l == 0 {
            100 * SCALE
        } else {
            (100 * SCALE * g) / (g + l)
        }
    }
}

/// Upward directional movement of candle `i`.
pub open spec fn plus_dm(s: Seq<Candle>, i: int) -> int {
    let up = s[i].high - s[i - 1].high;
    let down = s[i - 1].low - s[i].low;
    if up > down && up > 0 {
        up
    } else {
        0
    }
}

/// Downward directional movement of candle `i`.
pub open spec fn minus_dm(s: Seq<Candle>, i: int) -> int {
    let up = s[i].high - s[i - 1].high;
    let down = s[i - 1].low - s[i].low;
    if down > up && down > 0 {
        down
    } else {
        0
    }
}

pub open spec fn sum_plus_dm(s: Seq<Candle>, lo: int, hi: int) -> int
    decreases hi - lo,
{
    if hi <= lo {
        0
    } else {
        sum_plus_dm(s, lo, hi - 1) + plus_dm(s, hi - 1)
    }
}

pub open spec fn sum_minus_dm(s: Seq<Candle>, lo: int, hi: int) -> int
    decreases hi - lo,
{
    if hi <= lo {
        0
    } else {
        sum_minus_dm(s, lo, hi - 1) + minus_dm(s, hi - 1)
    }
}

/// Directional index over the last `period` candles, as a fixed-point
/// percentage: `100 * |+DM - -DM| / (+DM + -DM)`; zero with fewer than
/// `period + 1` candles, when the summed range is zero, or when there was
/// no directional movement.
pub open spec fn adx_spec(s: Seq<Candle>, period: int) -> int {
    if s.len() < period + 1 {
        0
    } else {
        let lo = s.len() - period;
        let p = sum_plus_dm(s, lo, s.len() as int);
        let m = sum_minus_dm(s, lo, s.len() as int);
        if sum_ranges(s, lo, s.len() as int) == 0 || p + m == 0 {
            0
        } else {
            (100 * SCALE * abs(p - m)) / (p + m)
        }
    }
}

/// Highest high of candles `lo .. hi` (`hi > lo`).
pub open spec fn max_high(s: Seq<Candle>, lo: int, hi: int) -> int
    decreases hi - lo,
{
    if hi <= lo + 1 {
        s[lo].high as int
    } else {
        let m = max_high(s, lo, hi - 1);
        if s[hi - 1].high > m {
            s[hi - 1].high as int
        } else {
            m
        }
    }
}

/// Lowest low of candles `lo .. hi` (`hi > lo`).
pub open spec fn min_low(s: Seq<Candle>, lo: int, hi: int) -> int
    decreases hi - lo,
{
    if hi <= lo + 1 {
        s[lo].low as int
    } else {
        let m = min_low(s, lo, hi - 1);
        if s[hi - 1].low < m {
            s[hi - 1].low as int
        } else {
            m
        }
    }
}

/// Number of candles whose extremes make up the range that a break is
/// measured against.
pub const STRUCTURE_WINDOW: usize = 20;

/// First candle of the range a break is measured against: the up to
/// twenty candles before the latest one.
pub open spec fn structure_start(n: int) -> int {
    if n > STRUCTURE_WINDOW + 1 {
        n - STRUCTURE_WINDOW - 1
    } else {
        0
    }
}

/// The latest close leaves the range of the candles before it while the
/// previous close was still inside; false with fewer than twenty candles.
pub open spec fn structure_break_spec(s: Seq<Candle>) -> bool {
    if s.len() < STRUCTURE_WINDOW {
        false
    } else {
        let n = s.len() as int;
        let hi = max_high(s, structure_start(n), n - 1);
        let lo = min_low(s, structure_start(n), n - 1);
        let current = s[n - 1].close;
        let previous = s[n - 2].close;
        (current > hi && previous <= hi) || (current < lo && previous >= lo)
    }
}

/// Trend from the exponential averages over twenty and fifty candles.
pub open spec fn trend_spec(s: Seq<Candle>) -> TrendDirection {
    if s.len() < 50 {
        TrendDirection::Neutral
    } else {
        let e20 = ema_spec(s, 20);
        let e50 = ema_spec(s, 50);
        let price = last_close(s);
        if price > e20 && e20 > e50 {
            TrendDirection::Long
        } else if price < e20 && e20 < e50 {
            TrendDirection::Short
        } else {
            TrendDirection::Neutral
        }
    }
}

/// Candles that make up a day at the given timeframe.
pub open spec fn candles_per_day(tf: Timeframe) -> int {
    match tf {
        Timeframe::M5 => 288,
        Timeframe::M15 => 96,
        _ => 24,
    }
}

/// An exponential step lands between the previous average and the close.
pub proof fn lemma_ema_step_between(prev: int, close: int, period: int)
    requires
        period >= 1,
    ensures
        prev <= close ==> prev <= ema_step(prev, close, period) <= close,
        close <= prev ==> close <= ema_step(prev, close, period) <= prev,
{
    let d = close - prev;
    let e = if d >= 0 { d } else { -d };
    vstd::arithmetic::div_mod::lemma_div_is_ordered_by_denominator(e * 2, 2, period + 1);
    vstd::arithmetic::div_mod::lemma_div_pos_is_pos(e * 2, period + 1);
    vstd::arithmetic::div_mod::lemma_div_by_multiple(e, 2);
    assert((close - prev) * 2 == d * 2);
    if d < 0 {
        assert(-(d * 2) == e * 2);
    }
}

/// `(k + 1) * m` is `k * m + m`, and stays small while `k` does.
pub proof fn lemma_mul_step(k: int, m: int)
    requires
        0 <= k <= MAX_CANDLES,
        0 <= m,
    ensures
        (k + 1) * m == k * m + m,
        0 <= k * m <= MAX_CANDLES * m,
{
    assert((k + 1) * m == k * m + m) by (nonlinear_arith);
    assert(0 <= k * m <= MAX_CANDLES * m) by (nonlinear_arith)
        requires
            0 <= k <= MAX_CANDLES,
            0 <= m,
    ;
}

/// A candle series of one symbol and timeframe, oldest first.
#[derive(Debug, Clone)]
pub struct MarketData {
    pub symbol: String,
    pub candles: Vec<Candle>,
    pub timeframe: Timeframe,
}

impl MarketData {
    pub open spec fn wf(&self) -> bool {
        candles_wf(self.candles@)
    }

    pub fn new(symbol: String, timeframe: Timeframe) -> (r: Self)
        ensures
            r.symbol == symbol,
            r.timeframe == timeframe,
            r.candles@.len() == 0,
            r.wf(),
    {
        MarketData { symbol, candles: Vec::new(), timeframe }
    }

    /// A series from fetched candles, oldest first; invalid input when a
    /// candle is malformed or there are more than `MAX_CANDLES`.
    pub fn from_candles(symbol: String, candles: Vec<Candle>, timeframe: Timeframe) -> (r: Result<
        Self,
        TradingError,
    >)
        ensures
            r.is_ok() <==> candles_wf(candles@),
            r is Err ==> r == Err::<Self, TradingError>(TradingError::InvalidInput),
            r matches Ok(m) ==> m.wf() && m.symbol == symbol && m.candles@ == candles@ && m.timeframe
                == timeframe,
    {
        if candles.len() > MAX_CANDLES {
            return Err(TradingError::InvalidInput);
        }
        let mut i: usize = 0;
        while i < candles.len()
            invariant
                0 <= i <= candles@.len(),
                forall|j: int| 0 <= j < i ==> #[trigger] candles@[j].wf(),
            decreases candles@.len() - i,
        {
            if !candles[i].is_valid() {
                return Err(TradingError::InvalidInput);
            }
            i = i + 1;
        }
        Ok(MarketData { symbol, candles, timeframe })
    }

    pub fn last_candle(&self) -> (r: Option<&Candle>)
        ensures
            self.candles@.len() == 0 ==> r.is_none(),
            self.candles@.len() > 0 ==> r == Some(&self.candles@.last()),
    {
        let n = self.candles.len();
        if n == 0 {
            None
        } else {
            Some(&self.candles[n - 1])
        }
    }

    pub fn close(&self) -> (r: i64)
        ensures
            r == last_close(self.candles@),
    {
        match self.last_candle() {
            Some(c) => c.close,
            None => 0,
        }
    }

    pub fn current_volume(&self) -> (r: i64)
        ensures
            r == last_volume(self.candles@),
    {
        match self.last_candle() {
            Some(c) => c.volume,
            None => 0,
        }
    }

    /// Average true range over the last `period` candles.
    pub fn atr(&self, period: usize) -> (r: i64)
        requires
            self.wf(),
            period > 0,
        ensures
            r == atr_spec(self.candles@, period as int),
            0 <= r <= 2 * AMOUNT_LIMIT,
    {
        let n = self.candles.len();
        if n <= period {
            return 0;
        }
        let lo = n - period;
        let mut sum: i128 = 0;
        let mut i = lo;
        while i < n
            invariant
                self.wf(),
                n == self.candles@.len(),
                lo == n - period,
                1 <= lo <= i <= n <= MAX_CANDLES,
                sum == sum_true_range(self.candles@, lo as int, i as int),
                0 <= sum <= (i - lo) * (2 * AMOUNT_LIMIT),
            decreases n - i,
        {
            let c = &self.candles[i];
            let p = &self.candles[i - 1];
            assert(self.candles@[i as int].wf() && self.candles@[i - 1].wf());
            let high_low = c.high - c.low;
            let high_close = if c.high >= p.close { c.high - p.close } else { p.close - c.high };
            let low_close = if c.low >= p.close { c.low - p.close } else { p.close - c.low };
            let tr = if high_low >= high_close && high_low >= low_close {
                high_low
            } else if high_close >= low_close {
                high_close
            } else {
                low_close
            };
            assert(tr == true_range(self.candles@, i as int));
            assert(0 <= tr <= 2 * AMOUNT_LIMIT);
            proof {
                lemma_mul_step(i - lo, 2 * AMOUNT_LIMIT);
            }
            sum = sum + tr as i128;
            i = i + 1;
        }
        proof {
            vstd::arithmetic::div_mod::lemma_div_is_ordered(sum as int, period * (2 * AMOUNT_LIMIT), period as int);
            vstd::arithmetic::div_mod::lemma_div_multiples_vanish(2 * AMOUNT_LIMIT, period as int);
            vstd::arithmetic::div_mod::lemma_div_pos_is_pos(sum as int, period as int);
        }
        (sum / period as i128) as i64
    }

    /// Sum of the closes of candles `lo .. hi`.
    fn sum_of_closes(&self, lo: usize, hi: usize) -> (r: i128)
        requires
            self.wf(),
            lo <= hi <= self.candles@.len(),
        ensures
            r == sum_closes(self.candles@, lo as int, hi as int),
            -((hi - lo) * AMOUNT_LIMIT) <= r <= (hi - lo) * AMOUNT_LIMIT,
    {
        let mut sum: i128 = 0;
        let mut i = lo;
        while i < hi
            invariant
                self.wf(),
                lo <= i <= hi <= self.candles@.len() <= MAX_CANDLES,
                sum == sum_closes(self.candles@, lo as int, i as int),
                -((i - lo) * AMOUNT_LIMIT) <= sum <= (i - lo) * AMOUNT_LIMIT,
            decreases hi - i,
        {
            assert(self.candles@[i as int].wf());
            proof {
                lemma_mul_step(i - lo, AMOUNT_LIMIT as int);
            }
            sum = sum + self.candles[i].close as i128;
            i = i + 1;
        }
        sum
    }

    /// Exponential moving average of the closes over `period`.
    pub fn ema(&self, period: usize) -> (r: i64)
        requires
            self.wf(),
            period > 0,
        ensures
            r == ema_spec(self.candles@, period as int),
            is_amount(r as int),
    {
        let n = self.candles.len();
        if n < period {
            if n > 0 {
                assert(self.candles@[n - 1].wf());
            }
            return self.close();
        }
        let seed = self.sum_of_closes(0, period);
        proof {
            lemma_tdiv_bound(seed as int, period as int, AMOUNT_LIMIT as int);
        }
        let mut ema: i64 = (seed / period as i128) as i64;
        let mut i = period;
        while i < n
            invariant
                self.wf(),
                n == self.candles@.len(),
                0 < period <= i <= n,
                ema == ema_through(self.candles@, period as int, i as int),
                is_amount(ema as int),
            decreases n - i,
        {
            let close = self.candles[i].close;
            assert(self.candles@[i as int].wf());
            proof {
                lemma_ema_step_between(ema as int, close as int, period as int);
            }
            let step = ((close - ema) as i128 * 2) / (period as i128 + 1);
            ema = ema + step as i64;
            i = i + 1;
        }
        ema
    }

    /// Relative strength index over the last `period` changes of the close,
    /// as a fixed-point percentage.
    pub fn rsi(&self, period: usize) -> (r: i64)
        requires
            self.wf(),
            period > 0,
        ensures
            r == rsi_spec(self.candles@, period as int),
            0 <= r <= 100 * SCALE,
    {
        let n = self.candles.len();
        if n <= period {
            return 50 * SCALE;
        }
        let lo = n - period;
        let mut gains: i128 = 0;
        let mut losses: i128 = 0;
        let mut i = lo;
        while i < n
            invariant
                self.wf(),
                n == self.candles@.len() <= MAX_CANDLES,
                1 <= lo <= i <= n,
                gains == sum_gains(self.candles@, lo as int, i as int),
                losses == sum_losses(self.candles@, lo as int, i as int),
                0 <= gains <= (i - lo) * (2 * AMOUNT_LIMIT),
                0 <= losses <= (i - lo) * (2 * AMOUNT_LIMIT),
            decreases n - i,
        {
            assert(self.candles@[i as int].wf() && self.candles@[i - 1].wf());
            proof {
                lemma_mul_step(i - lo, 2 * AMOUNT_LIMIT);
            }
            let change = self.candles[i].close - self.candles[i - 1].close;
            if change > 0 {
                gains = gains + change as i128;
            } else {
                losses = losses - change as i128;
            }
            i = i + 1;
        }
        if losses == 0 {
            return 100 * SCALE;
        }
        proof {
            assert(0 <= 100 * SCALE * gains <= 100 * SCALE * (gains + losses)) by (nonlinear_arith)
                requires
                    0 <= gains,
                    0 < losses,
            ;
            vstd::arithmetic::div_mod::lemma_div_is_ordered(
                100 * SCALE * gains,
                100 * SCALE * (gains + losses),
                gains + losses,
            );
            vstd::arithmetic::div_mod::lemma_div_multiples_vanish(100 * SCALE as int, gains + losses);
            vstd::arithmetic::div_mod::lemma_div_pos_is_pos(100 * SCALE * gains, gains + losses);
            assert(100 * SCALE * gains <= 100 * SCALE * (MAX_CANDLES * (2 * AMOUNT_LIMIT))) by (nonlinear_arith)
                requires
                    0 <= gains <= MAX_CANDLES * (2 * AMOUNT_LIMIT),
            ;
        }
        ((100 * SCALE as i128 * gains) / (gains + losses)) as i64
    }

    /// Directional index over the last `period` candles, as a fixed-point
    /// percentage.
    pub fn adx(&self, period: usize) -> (r: i64)
        requires
            self.wf(),
            period > 0,
        ensures
            r == adx_spec(self.candles@, period as int),
            0 <= r <= 100 * SCALE,
    {
        let n = self.candles.len();
        if n <= period {
            return 0;
        }
        let lo = n - period;
        let mut plus: i128 = 0;
        let mut minus: i128 = 0;
        let mut ranges: i128 = 0;
        let mut i = lo;
        while i < n
            invariant
                self.wf(),
                n == self.candles@.len() <= MAX_CANDLES,
                1 <= lo <= i <= n,
                plus == sum_plus_dm(self.candles@, lo as int, i as int),
                minus == sum_minus_dm(self.candles@, lo as int, i as int),
                ranges == sum_ranges(self.candles@, lo as int, i as int),
                0 <= plus <= (i - lo) * (2 * AMOUNT_LIMIT),
                0 <= minus <= (i - lo) * (2 * AMOUNT_LIMIT),
                0 <= ranges <= (i - lo) * (2 * AMOUNT_LIMIT),
            decreases n - i,
        {
            let c = &self.candles[i];
            let p = &self.candles[i - 1];
            assert(self.candles@[i as int].wf() && self.candles@[i - 1].wf());
            proof {
                lemma_mul_step(i - lo, 2 * AMOUNT_LIMIT);
            }
            let up = c.high - p.high;
            let down = p.low - c.low;
            if up > down && up > 0 {
                plus = plus + up as i128;
            }
            if down > up && down > 0 {
                minus = minus + down as i128;
            }
            ranges = ranges + c.range() as i128;
            i = i + 1;
        }
        if ranges == 0 || plus + minus == 0 {
            return 0;
        }
        let diff = if plus >= minus { plus - minus } else { minus - plus };
        proof {
            assert(0 <= 100 * SCALE * diff <= 100 * SCALE * (plus + minus)) by (nonlinear_arith)
                requires
                    0 <= diff <= plus + minus,
            ;
            vstd::arithmetic::div_mod::lemma_div_is_ordered(
                100 * SCALE * diff,
                100 * SCALE * (plus + minus),
                plus + minus,
            );
            vstd::arithmetic::div_mod::lemma_div_multiples_vanish(100 * SCALE as int, plus + minus);
            vstd::arithmetic::div_mod::lemma_div_pos_is_pos(100 * SCALE * diff, plus + minus);
            assert(100 * SCALE * diff <= 100 * SCALE * (2 * (MAX_CANDLES * (2 * AMOUNT_LIMIT)))) by (nonlinear_arith)
                requires
                    0 <= diff <= 2 * (MAX_CANDLES * (2 * AMOUNT_LIMIT)),
            ;
        }
        ((100 * SCALE as i128 * diff) / (plus + minus)) as i64
    }

    /// Trend of the series: Long when price > EMA20 > EMA50, Short when
    /// price < EMA20 < EMA50, Neutral otherwise or with under fifty candles.
    pub fn trend_direction(&self) -> (r: TrendDirection)
        requires
            self.wf(),
        ensures
            r == trend_spec(self.candles@),
    {
        if self.candles.len() < 50 {
            return TrendDirection::Neutral;
        }
        let ema_20 = self.ema(20);
        let ema_50 = self.ema(50);
        let current_price = self.close();
        if current_price > ema_20 && ema_20 > ema_50 {
            TrendDirection::Long
        } else if current_price < ema_20 && ema_20 < ema_50 {
            TrendDirection::Short
        } else {
            TrendDirection::Neutral
        }
    }

    /// Whether the latest close broke out of the range of the candles
    /// before it.
    pub fn has_structure_break(&self) -> (r: bool)
        requires
            self.wf(),
        ensures
            r == structure_break_spec(self.candles@),
    {
        let n = self.candles.len();
        if n < STRUCTURE_WINDOW {
            return false;
        }
        let start = if n > STRUCTURE_WINDOW + 1 { n - STRUCTURE_WINDOW - 1 } else { 0 };
        let mut recent_high = self.candles[start].high;
        let mut recent_low = self.candles[start].low;
        let mut i = start + 1;
        while i < n - 1
            invariant
                n == self.candles@.len() >= STRUCTURE_WINDOW,
                start == structure_start(n as int),
                start + 1 <= i <= n - 1,
                recent_high == max_high(self.candles@, start as int, i as int),
                recent_low == min_low(self.candles@, start as int, i as int),
            decreases n - i,
        {
            if self.candles[i].high > recent_high {
                recent_high = self.candles[i].high;
            }
            if self.candles[i].low < recent_low {
                recent_low = self.candles[i].low;
            }
            i = i + 1;
        }
        let current = self.candles[n - 1].close;
        let previous = self.candles[n - 2].close;
        if current > recent_high && previous <= recent_high {
            return true;
        }
        if current < recent_low && previous >= recent_low {
            return true;
        }
        false
    }

    /// Total volume of the candles of the last day (the last 288 at M5, 96
    /// at M15, 24 otherwise).
    pub fn volume_24h(&self) -> (r: i128)
        requires
            self.wf(),
        ensures
            ({
                let n = self.candles@.len() as int;
                let k = candles_per_day(self.timeframe);
                r == sum_volumes(self.candles@, if n > k { n - k } else { 0 }, n)
            }),
    {
        let per_day: usize = match self.timeframe {
            Timeframe::M5 => 288,
            Timeframe::M15 => 96,
            _ => 24,
        };
        let n = self.candles.len();
        let lo = if n > per_day { n - per_day } else { 0 };
        let mut sum: i128 = 0;
        let mut i = lo;
        while i < n
            invariant
                self.wf(),
                n == self.candles@.len() <= MAX_CANDLES,
                lo <= i <= n,
                sum == sum_volumes(self.candles@, lo as int, i as int),
                -((i - lo) * AMOUNT_LIMIT) <= sum <= (i - lo) * AMOUNT_LIMIT,
            decreases n - i,
        {
            assert(self.candles@[i as int].wf());
            proof {
                lemma_mul_step(i - lo, AMOUNT_LIMIT as int);
            }
            sum = sum + self.candles[i].volume as i128;
            i = i + 1;
        }
        sum
    }

    /// Order book depth over `levels` levels; a fixed estimate of one
    /// million wholes until live book data is wired in.
    pub fn orderbook_depth(&self, levels: usize) -> (r: i64)
        ensures
            r == 1_000_000 * SCALE,
    {
        1_000_000 * SCALE
    }

    /// Spread in basis points, fixed-point; a typical five until live quotes
    /// are wired in.
    pub fn spread_bps(&self) -> (r: i64)
        ensures
            r == 5 * SCALE,
    {
        5 * SCALE
    }

    /// Mean volume of the last `period` candles.
    pub fn volume_sma(&self, period: usize) -> (r: i64)
        requires
            self.wf(),
            period > 0,
        ensures
            r == volume_sma_spec(self.candles@, period as int),
            is_amount(r as int),
    {
        let n = self.candles.len();
        if n < period {
            if n > 0 {
                assert(self.candles@[n - 1].wf());
            }
            return self.current_volume();
        }
        let lo = n - period;
        let mut sum: i128 = 0;
        let mut i = lo;
        while i < n
            invariant
                self.wf(),
                n == self.candles@.len() <= MAX_CANDLES,
                lo <= i <= n,
                sum == sum_volumes(self.candles@, lo as int, i as int),
                -((i - lo) * AMOUNT_LIMIT) <= sum <= (i - lo) * AMOUNT_LIMIT,
            decreases n - i,
        {
            assert(self.candles@[i as int].wf());
            proof {
                lemma_mul_step(i - lo, AMOUNT_LIMIT as int);
            }
            sum = sum + self.candles[i].volume as i128;
            i = i + 1;
        }
        proof {
            lemma_tdiv_bound(sum as int, period as int, AMOUNT_LIMIT as int);
        }
        (sum / period as i128) as i64
    }

    /// Mean range of the last `period` candles.
    pub fn average_range(&self, period: usize) -> (r: i64)
        requires
            self.wf(),
            period > 0,
        ensures
            r == average_range_spec(self.candles@, period as int),
            0 <= r <= 2 * AMOUNT_LIMIT,
    {
        let n = self.candles.len();
        if n < period {
            return 0;
        }
        let lo = n - period;
        let mut sum: i128 = 0;
        let mut i = lo;
        while i < n
            invariant
                self.wf(),
                n == self.candles@.len() <= MAX_CANDLES,
                lo <= i <= n,
                sum == sum_ranges(self.candles@, lo as int, i as int),
                0 <= sum <= (i - lo) * (2 * AMOUNT_LIMIT),
            decreases n - i,
        {
            assert(self.candles@[i as int].wf());
            proof {
                lemma_mul_step(i - lo, 2 * AMOUNT_LIMIT);
            }
            sum = sum + self.candles[i].range() as i128;
            i = i + 1;
        }
        proof {
            lemma_tdiv_bound(sum as int, period as int, 2 * AMOUNT_LIMIT);
        }
        (sum / period as i128) as i64
    }
}

} // verus!
