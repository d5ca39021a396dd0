//! Setup scoring and market regime classification.
use vstd::prelude::*;
use crate::types::{MarketData, Timeframe};
use crate::fixed::SCALE;

verus! {

/// One piece of evidence for a setup.
#[derive(Debug, Clone)]
pub struct ConfluenceSignal {
    pub name: String,
    /// Points earned: the weight when active, zero otherwise.
    pub score: u8,
    pub weight: u8,
    pub is_active: bool,
}

/// Outcome of scoring a setup.
#[derive(Debug, Clone)]
pub struct ConfluenceResult {
    pub total_score: u8,
    pub signals: Vec<ConfluenceSignal>,
    pub is_valid: bool,
}

/// Points of the active signals among `s`.
pub open spec fn active_total(s: Seq<ConfluenceSignal>) -> int
    decreases s.len(),
{
    if s.len() == 0 {
        0
    } else {
        active_total(s.drop_last()) + if s.last().is_active { s.last().score as int } else { 0 }
    }
}

/// Weights of the seven signals, in the order they are reported.
pub open spec fn signal_weights() -> Seq<u8> {
    seq![20u8, 20u8, 10u8, 10u8, 15u8, 15u8, 10u8]
}

/// A signal that scores its weight exactly when active.
pub open spec fn signal_ok(s: ConfluenceSignal, weight: u8) -> bool {
    &&& s.weight == weight
    &&& s.score == if s.is_active { weight } else { 0u8 }
}

/// Scores setups from seven weighted signals out of a hundred points.
#[derive(Debug, Clone)]
pub struct ConfluenceScorer {
    min_score: u8,
}

impl ConfluenceScorer {
    pub closed spec fn min(&self) -> u8 {
        self.min_score
    }

    pub fn new(min_score: u8) -> (r: Self)
        ensures
            r.min() == min_score,
    {
        ConfluenceScorer { min_score }
    }

    fn signal(name: &str, weight: u8, is_active: bool) -> (r: ConfluenceSignal)
        ensures
            signal_ok(r, weight),
            r.is_active == is_active,
    {
        ConfluenceSignal {
            name: name.to_owned(),
            score: if is_active { weight } else { 0 },
            weight,
            is_active,
        }
    }

    /// Scores the setup: breakout and retest (20 each), volume spike and
    /// RSI zone (10 each), MACD divergence and timeframe alignment (15
    /// each), trading session (10). Valid when the active points reach the
    /// minimum.
    pub fn calculate_score(&self, market_data: &MarketData, timeframe: Timeframe) -> (r: ConfluenceResult)
        ensures
            r.signals@.len() == 7,
            forall|i: int| 0 <= i < 7 ==> signal_ok(#[trigger] r.signals@[i], signal_weights()[i]),
            r.total_score == active_total(r.signals@),
            r.is_valid == (r.total_score >= self.min()),
    {
        let mut signals: Vec<ConfluenceSignal> = Vec::new();
        signals.push(self.check_breakout(market_data, 20));
        signals.push(self.check_retest(market_data, 20));
        signals.push(self.check_volume_spike(market_data, 10));
        signals.push(self.check_rsi_zone(market_data, 10));
        signals.push(self.check_macd_divergence(market_data, 15));
        signals.push(self.check_multi_timeframe_alignment(market_data, 15));
        signals.push(self.check_trading_session(10));
        let ghost sig = signals@;
        let mut total: u8 = 0;
        let mut i: usize = 0;
        while i < signals.len()
            invariant
                signals@ == sig,
                sig.len() == 7,
                forall|j: int| 0 <= j < 7 ==> signal_ok(#[trigger] sig[j], signal_weights()[j]),
                0 <= i <= 7,
                total == active_total(sig.take(i as int)),
                total <= (if i == 0 { 0int } else if i == 1 { 20int } else if i == 2 { 40int }
                    else if i == 3 { 50int } else if i == 4 { 60int } else if i == 5 { 75int }
                    else if i == 6 { 90int } else { 100int }),
            decreases 7 - i,
        {
            assert(sig.take(i + 1).drop_last() =~= sig.take(i as int));
            assert(signal_ok(sig[i as int], signal_weights()[i as int]));
            if signals[i].is_active {
                total = total + signals[i].score;
            }
            i = i + 1;
        }
        assert(sig.take(7) =~= sig);
        let is_valid = total >= self.min_score;
        ConfluenceResult { total_score: total, signals, is_valid }
    }

    /// Confirmed breakout; not detected yet.
    fn check_breakout(&self, data: &MarketData, weight: u8) -> (r: ConfluenceSignal)
        ensures
            signal_ok(r, weight),
    {
        Self::signal("Breakout Confirmado", weight, false)
    }

    /// Successful retest; not detected yet.
    fn check_retest(&self, data: &MarketData, weight: u8) -> (r: ConfluenceSignal)
        ensures
            signal_ok(r, weight),
    {
        Self::signal("Retest Exitoso", weight, false)
    }

    /// Volume spike; not detected yet.
    fn check_volume_spike(&self, data: &MarketData, weight: u8) -> (r: ConfluenceSignal)
        ensures
            signal_ok(r, weight),
    {
        Self::signal("Volume Spike", weight, false)
    }

    /// RSI in a favourable zone; not detected yet.
    fn check_rsi_zone(&self, data: &MarketData, weight: u8) -> (r: ConfluenceSignal)
        ensures
            signal_ok(r, weight),
    {
        Self::signal("RSI Zona Favorable", weight, false)
    }

    /// MACD divergence; not detected yet.
    fn check_macd_divergence(&self, data: &MarketData, weight: u8) -> (r: ConfluenceSignal)
        ensures
            signal_ok(r, weight),
    {
        Self::signal("MACD Divergencia", weight, false)
    }

    /// Agreement across timeframes; not detected yet.
    fn check_multi_timeframe_alignment(&self, data: &MarketData, weight: u8) -> (r: ConfluenceSignal)
        ensures
            signal_ok(r, weight),
    {
        Self::signal("Alineación Multi-TF", weight, false)
    }

    /// High-liquidity session; not detected yet.
    pub fn check_trading_session(&self, weight: u8) -> (r: ConfluenceSignal)
        ensures
            signal_ok(r, weight),
    {
        Self::signal("Sesión Alta Liquidez", weight, false)
    }
}

/// Ranking of one tradable asset; component scores are fixed-point
/// fractions, the total fixed-point points out of 100.
#[derive(Debug, Clone)]
pub struct AssetScore {
    pub symbol: String,
    pub volatility_score: i64,
    pub trend_strength: i64,
    pub liquidity_score: i64,
    pub spread_cost: i64,
    pub total_score: i64,
}

#[derive(Debug, Clone, Copy)]
struct ScoreWeights {
    volatility: i64,
    trend: i64,
    liquidity: i64,
    spread: i64,
}

/// Weighted sum of the four component scores, in fixed-point points out of
/// 100: each component and weight is a fixed-point fraction.
pub open spec fn weighted_total(v: int, t: int, l: int, s: int, wv: int, wt: int, wl: int, ws: int) -> int {
    (v * wv + t * wt + l * wl + s * ws) * 100 / (SCALE as int)
}

/// Number of the first `k` candidates that have market data.
pub open spec fn found_count(candidates: Seq<String>, data: Seq<MarketData>, k: int) -> int
    decreases k,
{
    if k <= 0 {
        0
    } else {
        found_count(candidates, data, k - 1) + if has_data(data, candidates[k - 1]@) { 1int } else { 0 }
    }
}

/// Some series in `data` is for `symbol`.
pub open spec fn has_data(data: Seq<MarketData>, symbol: Seq<char>) -> bool {
    exists|i: int| 0 <= i < data.len() && (#[trigger] data[i]).symbol@ == symbol
}

/// The scores are in non-increasing order of total.
pub open spec fn ranked(s: Seq<AssetScore>) -> bool {
    forall|i: int, j: int| 0 <= i < j < s.len() ==> (#[trigger] s[i]).total_score >= (#[trigger] s[j]).total_score
}

/// Score out of 100, fixed-point, an asset needs before its setups are
/// examined.
pub const MIN_ASSET_SCORE: i64 = 7_500_000_000;
/// Number of top-ranked assets examined each cycle.
pub const SHORTLIST_SIZE: usize = 2;

/// Positions, in ranking order, of the assets worth examining: those among
/// the first `SHORTLIST_SIZE` that score at least `MIN_ASSET_SCORE`.
pub open spec fn shortlisted(ranked: Seq<AssetScore>, i: int) -> bool {
    0 <= i < SHORTLIST_SIZE && i < ranked.len() && ranked[i].total_score >= MIN_ASSET_SCORE
}

/// Positions of the ranked assets worth examining, in order.
pub fn shortlist(ranked: &Vec<AssetScore>) -> (r: Vec<usize>)
    ensures
        forall|k: int| 0 <= k < r@.len() ==> shortlisted(ranked@, #[trigger] r@[k] as int),
        forall|i: int| shortlisted(ranked@, i) ==> r@.contains(i as usize),
        forall|a: int, b: int| 0 <= a < b < r@.len() ==> r@[a] < r@[b],
{
    let mut out: Vec<usize> = Vec::new();
    let mut i: usize = 0;
    while i < ranked.len() && i < SHORTLIST_SIZE
        invariant
            0 <= i <= SHORTLIST_SIZE,
            i <= ranked@.len(),
            forall|k: int| 0 <= k < out@.len() ==> shortlisted(ranked@, #[trigger] out@[k] as int),
            forall|k: int| 0 <= k < out@.len() ==> #[trigger] out@[k] < i,
            forall|j: int| 0 <= j < i && shortlisted(ranked@, j) ==> out@.contains(j as usize),
            forall|a: int, b: int| 0 <= a < b < out@.len() ==> out@[a] < out@[b],
        decreases SHORTLIST_SIZE - i,
    {
        let ghost before = out@;
        if ranked[i].total_score >= MIN_ASSET_SCORE {
            out.push(i);
            proof {
                assert(out@[out@.len() - 1] == i);
                assert forall|j: int| 0 <= j < i && shortlisted(ranked@, j) implies out@.contains(j as usize) by {
                    let k = choose|k: int| 0 <= k < before.len() && before[k] == j as usize;
                    assert(out@[k] == before[k]);
                }
            }
        }
        i = i + 1;
    }
    out
}

/// Orders candidate assets by how attractive they are to trade.
pub struct AssetRanker {
    weights: ScoreWeights,
}

impl AssetRanker {
    /// Weights 40% volatility, 30% trend, 20% liquidity, 10% spread.
    pub fn new() -> (r: Self)
        ensures
            r.wf(),
    {
        AssetRanker {
            weights: ScoreWeights { volatility: 40_000_000, trend: 30_000_000, liquidity: 20_000_000, spread: 10_000_000 },
        }
    }

    pub closed spec fn wf(&self) -> bool {
        &&& self.weights.volatility == 40_000_000
        &&& self.weights.trend == 30_000_000
        &&& self.weights.liquidity == 20_000_000
        &&& self.weights.spread == 10_000_000
    }

    /// Scores of the candidates that have market data, best first; ties
    /// keep the order of the candidates.
    pub fn rank_assets(&self, candidates: Vec<String>, market_data: &Vec<MarketData>) -> (r: Vec<AssetScore>)
        requires
            self.wf(),
        ensures
            r@.len() == found_count(candidates@, market_data@, candidates@.len() as int),
            ranked(r@),
            forall|k: int| 0 <= k < r@.len() ==> has_data(market_data@, (#[trigger] r@[k]).symbol@),
    {
        let mut scores: Vec<AssetScore> = Vec::new();
        let mut c: usize = 0;
        while c < candidates.len()
            invariant
                self.wf(),
                0 <= c <= candidates@.len(),
                scores@.len() == found_count(candidates@, market_data@, c as int),
                ranked(scores@),
                forall|k: int| 0 <= k < scores@.len() ==> has_data(market_data@, (#[trigger] scores@[k]).symbol@),
            decreases candidates@.len() - c,
        {
            let symbol = &candidates[c];
            let mut d: usize = 0;
            let mut found = false;
            while d < market_data.len()
                invariant
                    0 <= d <= market_data@.len(),
                    !found ==> forall|j: int| 0 <= j < d ==> (#[trigger] market_data@[j]).symbol@ != symbol@,
                    found ==> d < market_data@.len() && market_data@[d as int].symbol@ == symbol@,
                ensures
                    !found ==> d == market_data@.len(),
                    !found ==> forall|j: int| 0 <= j < d ==> (#[trigger] market_data@[j]).symbol@ != symbol@,
                    found ==> d < market_data@.len() && market_data@[d as int].symbol@ == symbol@,
                decreases market_data@.len() - d,
            {
                if market_data[d].symbol == *symbol {
                    found = true;
                    break;
                }
                d = d + 1;
            }
            if found {
                let score = self.calculate_asset_score(symbol.as_str(), &market_data[d]);
                assert(has_data(market_data@, score.symbol@));
                let mut k: usize = 0;
                while k < scores.len() && scores[k].total_score >= score.total_score
                    invariant
                        0 <= k <= scores@.len(),
                        forall|j: int| 0 <= j < k ==> (#[trigger] scores@[j]).total_score >= score.total_score,
                    decreases scores@.len() - k,
                {
                    k = k + 1;
                }
                let ghost before = scores@;
                scores.insert(k, score);
                proof {
                    assert forall|i: int, j: int| 0 <= i < j < scores@.len() implies (#[trigger] scores@[i]).total_score
                        >= (#[trigger] scores@[j]).total_score by {
                        if k < before.len() {
                            assert(before[k as int].total_score < score.total_score);
                        }
                        if i < k && j > k {
                            assert(before[i].total_score >= before[j - 1].total_score || i == j - 1);
                        }
                    }
                    assert forall|m: int| 0 <= m < scores@.len() implies has_data(market_data@, (#[trigger] scores@[m]).symbol@) by {
                        if m < k {
                            assert(scores@[m] == before[m]);
                        } else if m > k {
                            assert(scores@[m] == before[m - 1]);
                        }
                    }
                }
            } else {
                assert(!has_data(market_data@, candidates@[c as int]@));
            }
            c = c + 1;
        }
        scores
    }

    /// Score of one asset. The components are placeholders of one half each
    /// until real volatility, trend, liquidity and spread measures are in.
    fn calculate_asset_score(&self, symbol: &str, data: &MarketData) -> (r: AssetScore)
        requires
            self.wf(),
        ensures
            r.symbol@ == symbol@,
            r.total_score == weighted_total(
                r.volatility_score as int,
                r.trend_strength as int,
                r.liquidity_score as int,
                r.spread_cost as int,
                40_000_000,
                30_000_000,
                20_000_000,
                10_000_000,
            ),
            r.total_score == 50 * SCALE,
    {
        let volatility_score: i64 = 50_000_000;
        let trend_strength: i64 = 50_000_000;
        let liquidity_score: i64 = 50_000_000;
        let spread_cost: i64 = 50_000_000;
        let w = self.weights;
        assert(w.volatility == 40_000_000 && w.trend == 30_000_000 && w.liquidity == 20_000_000 && w.spread
            == 10_000_000);
        let sum = volatility_score as i128 * w.volatility as i128 + trend_strength as i128 * w.trend as i128
            + liquidity_score as i128 * w.liquidity as i128 + spread_cost as i128 * w.spread as i128;
        let total_score = (sum * 100 / SCALE as i128) as i64;
        AssetScore {
            symbol: symbol.to_owned(),
            volatility_score,
            trend_strength,
            liquidity_score,
            spread_cost,
            total_score,
        }
    }
}

/// Character of the market.
#[derive(Debug, Clone, Copy, PartialEq, Eq, Structural)]
pub enum MarketRegime {
    Trending,
    Ranging,
    Volatile,
    LowLiquidity,
}

/// Classifies the market regime of a series.
pub struct MarketRegimeDetector;

impl MarketRegimeDetector {
    pub fn new() -> (r: Self)
        ensures
            r == MarketRegimeDetector,
    {
        MarketRegimeDetector
    }

    /// Regime of the series; ranging until ADX and ATR based detection is
    /// in place.
    pub fn detect_regime(&self, data: &MarketData) -> (r: MarketRegime)
        ensures
            r == MarketRegime::Ranging,
    {
        MarketRegime::Ranging
    }

    /// Only trending markets are traded.
    pub fn is_safe_to_trade(&self, regime: MarketRegime) -> (r: bool)
        ensures
            r == (regime == MarketRegime::Trending),
    {
        matches!(regime, MarketRegime::Trending)
    }
}

impl Default for AssetRanker {
    fn default() -> (r: Self)
        ensures
            r.wf(),
    {
        Self::new()
    }
}

impl Default for MarketRegimeDetector {
    fn default() -> (r: Self)
        ensures
            r == MarketRegimeDetector,
    {
        Self::new()
    }
}

} // verus!
