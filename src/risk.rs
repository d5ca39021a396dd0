//! Adaptive position risk and losing-streak detection.
use vstd::prelude::*;
use crate::fixed::{is_amount, SCALE};
use crate::TradingError;

verus! {

/// Profit, in fixed-point percent, below which the base risk applies.
pub const CONSERVATIVE_PROFIT: i64 = 3 * SCALE;
/// Profit, in fixed-point percent, below which the confidence risk applies.
pub const CONFIDENCE_PROFIT: i64 = 6 * SCALE;
/// Profit, in fixed-point percent, below which the maximum risk applies.
pub const TARGET_PROFIT: i64 = 10 * SCALE;
/// Risk, in fixed-point percent, used while building confidence (0.7%).
pub const CONFIDENCE_RISK: i64 = 70_000_000;
/// Drawdown, in fixed-point percent, above which risk drops to the minimum.
pub const DRAWDOWN_LIMIT: i64 = 3 * SCALE;
/// Losses in a row that drop risk to the minimum.
pub const LOSS_STREAK: usize = 2;
/// Number of recent outcomes the risk manager keeps.
pub const HISTORY_CAPACITY: usize = 10;

/// Outcome of a closed trade as the risk manager sees it.
#[derive(Debug, Clone, Copy)]
pub struct TradeResult {
    /// Realised profit, fixed-point.
    pub pnl: i64,
    pub timestamp: i64,
}

impl TradeResult {
    pub open spec fn won(&self) -> bool {
        self.pnl > 0
    }

    /// A trade is a win when it made a profit.
    pub fn is_win(&self) -> (r: bool)
        ensures
            r == self.won(),
    {
        self.pnl > 0
    }
}

/// Whether the profit of `balance` over `initial`, in percent, lies below
/// `threshold` (fixed-point percent). Compared exactly, without dividing.
pub open spec fn profit_below(balance: int, initial: int, threshold: int) -> bool {
    if initial > 0 {
        (balance - initial) * (100 * SCALE) < threshold * initial
    } else {
        (balance - initial) * (100 * SCALE) > threshold * initial
    }
}

/// The last two recorded outcomes are both losses.
pub open spec fn two_losses(h: Seq<TradeResult>) -> bool {
    h.len() >= LOSS_STREAK && !h[h.len() - 1].won() && !h[h.len() - 2].won()
}

/// Risk fraction for the given account state.
pub open spec fn risk_spec(
    base: int,
    min: int,
    max: int,
    history: Seq<TradeResult>,
    balance: int,
    initial: int,
    drawdown: int,
) -> int {
    if profit_below(balance, initial, CONSERVATIVE_PROFIT as int) {
        base
    } else if profit_below(balance, initial, CONFIDENCE_PROFIT as int) {
        CONFIDENCE_RISK as int
    } else if profit_below(balance, initial, TARGET_PROFIT as int) {
        max
    } else if drawdown > DRAWDOWN_LIMIT {
        min
    } else if two_losses(history) {
        min
    } else {
        base
    }
}

/// History after recording `r`: appended, the oldest dropped beyond capacity.
pub open spec fn history_after(h: Seq<TradeResult>, r: TradeResult) -> Seq<TradeResult> {
    if h.len() + 1 > HISTORY_CAPACITY {
        h.push(r).drop_first()
    } else {
        h.push(r)
    }
}

/// Sizes positions from account progress, drawdown and recent outcomes.
#[derive(Debug, Clone)]
pub struct AdaptiveRiskManager {
    base_risk: i64,
    min_risk: i64,
    max_risk: i64,
    recent_trades: Vec<TradeResult>,
    max_history: usize,
}

impl AdaptiveRiskManager {
    pub closed spec fn base(&self) -> int {
        self.base_risk as int
    }

    pub closed spec fn min(&self) -> int {
        self.min_risk as int
    }

    pub closed spec fn max(&self) -> int {
        self.max_risk as int
    }

    /// Recent outcomes, oldest first.
    pub closed spec fn history(&self) -> Seq<TradeResult> {
        self.recent_trades@
    }

    /// `min <= base <= max`, and the history is within its capacity.
    pub closed spec fn wf(&self) -> bool {
        &&& self.min_risk <= self.base_risk <= self.max_risk
        &&& self.max_history == HISTORY_CAPACITY
        &&& self.recent_trades@.len() <= HISTORY_CAPACITY
    }

    /// A manager with the given base, minimum and maximum risk (fixed-point
    /// percent); a configuration error unless `min <= base <= max`.
    pub fn new(base: i64, min: i64, max: i64) -> (r: Result<Self, TradingError>)
        ensures
            r.is_ok() <==> min <= base <= max,
            r is Err ==> r == Err::<Self, TradingError>(TradingError::ConfigurationError),
            r matches Ok(m) ==> {
                &&& m.wf()
                &&& m.base() == base
                &&& m.min() == min
                &&& m.max() == max
                &&& m.history().len() == 0
            },
    {
        if min > base || base > max {
            return Err(TradingError::ConfigurationError);
        }
        Ok(AdaptiveRiskManager {
            base_risk: base,
            min_risk: min,
            max_risk: max,
            recent_trades: Vec::new(),
            max_history: HISTORY_CAPACITY,
        })
    }

    /// Risk fraction, in fixed-point percent, for the current balance, the
    /// starting balance and the current drawdown (fixed-point percent).
    pub fn calculate_risk_percent(
        &mut self,
        account_balance: i64,
        initial_balance: i64,
        current_dd: i64,
    ) -> (r: i64)
        requires
            old(self).wf(),
            is_amount(account_balance as int),
            is_amount(initial_balance as int),
            initial_balance != 0,
        ensures
            *final(self) == *old(self),
            r == risk_spec(
                old(self).base(),
                old(self).min(),
                old(self).max(),
                old(self).history(),
                account_balance as int,
                initial_balance as int,
                current_dd as int,
            ),
    {
        if Self::profit_below(account_balance, initial_balance, CONSERVATIVE_PROFIT) {
            return self.base_risk;
        }
        if Self::profit_below(account_balance, initial_balance, CONFIDENCE_PROFIT) {
            return CONFIDENCE_RISK;
        }
        if Self::profit_below(account_balance, initial_balance, TARGET_PROFIT) {
            return self.max_risk;
        }
        if current_dd > DRAWDOWN_LIMIT {
            return self.min_risk;
        }
        self.adjust_for_streak()
    }

    fn profit_below(balance: i64, initial: i64, threshold: i64) -> (r: bool)
        requires
            is_amount(balance as int),
            is_amount(initial as int),
            0 <= threshold <= TARGET_PROFIT,
        ensures
            r == profit_below(balance as int, initial as int, threshold as int),
    {
        let diff = balance as i128 - initial as i128;
        proof {
            assert(-(200_000_000_000_000_000int * (100 * SCALE)) <= diff * (100 * SCALE)
                <= 200_000_000_000_000_000int * (100 * SCALE)) by (nonlinear_arith)
                requires
                    -200_000_000_000_000_000int <= diff <= 200_000_000_000_000_000int,
            ;
            assert(-(TARGET_PROFIT * 100_000_000_000_000_000int) <= threshold * initial
                <= TARGET_PROFIT * 100_000_000_000_000_000int) by (nonlinear_arith)
                requires
                    0 <= threshold <= TARGET_PROFIT,
                    -100_000_000_000_000_000int <= initial <= 100_000_000_000_000_000int,
            ;
        }
        let scaled = diff * (100 * SCALE as i128);
        let bound = threshold as i128 * initial as i128;
        if initial > 0 {
            scaled < bound
        } else {
            scaled > bound
        }
    }

    /// Minimum risk after two losses in a row, the base risk otherwise (two
    /// wins keep the base: risk never rises on its own).
    fn adjust_for_streak(&self) -> (r: i64)
        requires
            self.wf(),
        ensures
            r == (if two_losses(self.history()) { self.min() } else { self.base() }),
    {
        let n = self.recent_trades.len();
        if n < LOSS_STREAK {
            return self.base_risk;
        }
        if !self.recent_trades[n - 1].is_win() && !self.recent_trades[n - 2].is_win() {
            return self.min_risk;
        }
        self.base_risk
    }

    /// Appends an outcome, dropping the oldest beyond ten.
    pub fn record_trade(&mut self, result: TradeResult)
        requires
            old(self).wf(),
        ensures
            final(self).wf(),
            final(self).base() == old(self).base(),
            final(self).min() == old(self).min(),
            final(self).max() == old(self).max(),
            final(self).history() == history_after(old(self).history(), result),
    {
        self.recent_trades.push(result);
        if self.recent_trades.len() > self.max_history {
            self.recent_trades.remove(0);
        }
    }
}

/// Number of losses that end the sequence, counted back from its last item.
pub open spec fn trailing_losses(s: Seq<TradeResult>) -> nat
    decreases s.len(),
{
    if s.len() == 0 || s.last().won() {
        0
    } else {
        trailing_losses(s.drop_last()) + 1
    }
}

/// Watches runs of losing trades.
pub struct StreakDetector {
    max_consecutive_losses: usize,
}

impl StreakDetector {
    pub closed spec fn limit(&self) -> nat {
        self.max_consecutive_losses as nat
    }

    pub fn new(max_consecutive_losses: usize) -> (r: Self)
        ensures
            r.limit() == max_consecutive_losses,
    {
        StreakDetector { max_consecutive_losses }
    }

    /// Two or more losses end the list.
    pub fn should_reduce_risk(&self, recent_trades: &[TradeResult]) -> (r: bool)
        ensures
            r == (recent_trades@.len() >= 2 && trailing_losses(recent_trades@) >= LOSS_STREAK),
    {
        if recent_trades.len() < 2 {
            return false;
        }
        let consecutive_losses = self.count_consecutive_losses(recent_trades);
        consecutive_losses >= LOSS_STREAK
    }

    /// The losses that end the list reach the configured limit.
    pub fn should_activate_kill_switch(&self, recent_trades: &[TradeResult]) -> (r: bool)
        ensures
            r == (trailing_losses(recent_trades@) >= self.limit()),
    {
        let consecutive_losses = self.count_consecutive_losses(recent_trades);
        consecutive_losses >= self.max_consecutive_losses
    }

    fn count_consecutive_losses(&self, trades: &[TradeResult]) -> (r: usize)
        ensures
            r == trailing_losses(trades@),
    {
        let mut count: usize = 0;
        let mut i = trades.len();
        proof {
            assert(trades@.subrange(0, i as int) =~= trades@);
        }
        while i > 0
            invariant
                i <= trades@.len(),
                count == trades@.len() - i,
                trailing_losses(trades@) == trailing_losses(trades@.subrange(0, i as int)) + count,
                forall|j: int| i <= j < trades@.len() ==> !(#[trigger] trades@[j]).won(),
            decreases i,
        {
            proof {
                let pre = trades@.subrange(0, i as int);
                assert(pre.drop_last() =~= trades@.subrange(0, i - 1));
            }
            if trades[i - 1].is_win() {
                proof {
                    let pre = trades@.subrange(0, i as int);
                    assert(pre.last() == trades@[i - 1]);
                }
                return count;
            }
            count = count + 1;
            i = i - 1;
        }
        proof {
            assert(trades@.subrange(0, 0).len() == 0);
        }
        count
    }
}

/// Correlation between two symbols, fixed-point (`SCALE` is 1).
#[derive(Debug, Clone)]
pub struct CorrelationEntry {
    pub first: String,
    pub second: String,
    pub value: i64,
}

/// The recorded correlation of the ordered pair, if any: the first entry
/// for it.
pub open spec fn lookup_correlation(s: Seq<CorrelationEntry>, a: Seq<char>, b: Seq<char>) -> Option<i64>
    decreases s.len(),
{
    if s.len() == 0 {
        None
    } else if s[0].first@ == a && s[0].second@ == b {
        Some(s[0].value)
    } else {
        lookup_correlation(s.drop_first(), a, b)
    }
}

/// Known correlations between pairs of symbols.
pub struct CorrelationMatrix {
    correlations: Vec<CorrelationEntry>,
}

impl CorrelationMatrix {
    pub closed spec fn entries(&self) -> Seq<CorrelationEntry> {
        self.correlations@
    }

    pub fn new() -> (r: Self)
        ensures
            r.entries().len() == 0,
    {
        CorrelationMatrix { correlations: Vec::new() }
    }

    /// Correlation of two symbols; not measured yet, so zero.
    pub fn calculate_correlation(&mut self, symbol1: &str, symbol2: &str) -> (r: i64)
        ensures
            r == 0,
            final(self).entries() == old(self).entries(),
    {
        0
    }

    /// The recorded correlation of the pair exceeds `threshold` in
    /// magnitude; false for a pair with none recorded.
    pub fn are_highly_correlated(&self, symbol1: &str, symbol2: &str, threshold: i64) -> (r: bool)
        ensures
            r == (match lookup_correlation(self.entries(), symbol1@, symbol2@) {
                Some(c) => crate::fixed::abs(c as int) > threshold,
                None => false,
            }),
    {
        let a = symbol1.to_owned();
        let b = symbol2.to_owned();
        let mut i: usize = 0;
        proof {
            assert(self.correlations@.subrange(0, self.correlations@.len() as int) =~= self.correlations@);
        }
        while i < self.correlations.len()
            invariant
                0 <= i <= self.correlations@.len(),
                a@ == symbol1@,
                b@ == symbol2@,
                lookup_correlation(self.correlations@, symbol1@, symbol2@) == lookup_correlation(
                    self.correlations@.subrange(i as int, self.correlations@.len() as int),
                    symbol1@,
                    symbol2@,
                ),
            decreases self.correlations@.len() - i,
        {
            let e = &self.correlations[i];
            let ghost rest = self.correlations@.subrange(i as int, self.correlations@.len() as int);
            assert(rest[0] == self.correlations@[i as int]);
            assert(rest.drop_first() =~= self.correlations@.subrange(i + 1, self.correlations@.len() as int));
            if e.first == a && e.second == b {
                let c = e.value as i128;
                let m = if c >= 0 { c } else { -c };
                return m > threshold as i128;
            }
            i = i + 1;
        }
        false
    }
}

impl Default for CorrelationMatrix {
    fn default() -> (r: Self)
        ensures
            r.entries().len() == 0,
    {
        Self::new()
    }
}

/// Every risk fraction the manager hands out lies between its minimum and
/// maximum, provided the confidence risk does.
pub proof fn lemma_risk_within_bounds(
    m: AdaptiveRiskManager,
    balance: int,
    initial: int,
    drawdown: int,
)
    requires
        m.wf(),
        m.min() <= CONFIDENCE_RISK <= m.max(),
    ensures
        m.min() <= risk_spec(m.base(), m.min(), m.max(), m.history(), balance, initial, drawdown)
            <= m.max(),
{
}

} // verus!
