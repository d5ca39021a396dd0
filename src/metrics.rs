//! Performance statistics over a bounded window of closed trades.
use vstd::prelude::*;
use crate::fixed::{is_amount, AMOUNT_LIMIT, SCALE};
use crate::types::lemma_mul_step;

verus! {

/// Largest window a metrics calculator may keep.
pub const MAX_WINDOW: usize = 1_000_000;

/// A closed trade; `pnl` is fixed-point.
#[derive(Debug, Clone)]
pub struct CompletedTrade {
    pub symbol: String,
    pub pnl: i64,
    pub entry_time: i64,
    pub exit_time: i64,
    pub direction: String,
}

/// Snapshot of the statistics of a window. Rates and ratios are
/// fixed-point (`SCALE` is 1), money amounts fixed-point.
#[derive(Debug, Clone, Copy)]
pub struct PerformanceMetrics {
    pub total_trades: usize,
    pub winning_trades: usize,
    pub losing_trades: usize,
    pub win_rate: i64,
    pub profit_factor: i128,
    pub max_drawdown: i128,
    pub current_drawdown: i128,
    pub total_pnl: i128,
    pub avg_win: i64,
    pub avg_loss: i64,
    pub largest_win: i64,
    pub largest_loss: i64,
    pub consecutive_wins: usize,
    pub consecutive_losses: usize,
    pub max_consecutive_wins: usize,
    pub max_consecutive_losses: usize,
    pub valid_trading_days: usize,
}

impl PerformanceMetrics {
    /// Every field is zero.
    pub open spec fn is_zero(&self) -> bool {
        &&& self.total_trades == 0
        &&& self.winning_trades == 0
        &&& self.losing_trades == 0
        &&& self.win_rate == 0
        &&& self.profit_factor == 0
        &&& self.max_drawdown == 0
        &&& self.current_drawdown == 0
        &&& self.total_pnl == 0
        &&& self.avg_win == 0
        &&& self.avg_loss == 0
        &&& self.largest_win == 0
        &&& self.largest_loss == 0
        &&& self.consecutive_wins == 0
        &&& self.consecutive_losses == 0
        &&& self.max_consecutive_wins == 0
        &&& self.max_consecutive_losses == 0
        &&& self.valid_trading_days == 0
    }
}

impl Default for PerformanceMetrics {
    fn default() -> (r: Self)
        ensures
            r.is_zero(),
    {
        PerformanceMetrics {
            total_trades: 0,
            winning_trades: 0,
            losing_trades: 0,
            win_rate: 0,
            profit_factor: 0,
            max_drawdown: 0,
            current_drawdown: 0,
            total_pnl: 0,
            avg_win: 0,
            avg_loss: 0,
            largest_win: 0,
            largest_loss: 0,
            consecutive_wins: 0,
            consecutive_losses: 0,
            max_consecutive_wins: 0,
            max_consecutive_losses: 0,
            valid_trading_days: 0,
        }
    }
}

pub open spec fn pnl_at(s: Seq<CompletedTrade>, i: int) -> int {
    s[i].pnl as int
}

/// Trades among the first `k` that made a profit.
pub open spec fn win_count(s: Seq<CompletedTrade>, k: int) -> int
    decreases k,
{
    if k <= 0 {
        0
    } else {
        win_count(s, k - 1) + if pnl_at(s, k - 1) > 0 { 1int } else { 0 }
    }
}

/// Trades among the first `k` that made a loss.
pub open spec fn loss_count(s: Seq<CompletedTrade>, k: int) -> int
    decreases k,
{
    if k <= 0 {
        0
    } else {
        loss_count(s, k - 1) + if pnl_at(s, k - 1) < 0 { 1int } else { 0 }
    }
}

/// Sum of the profits of the winning trades among the first `k`.
pub open spec fn gross_profit(s: Seq<CompletedTrade>, k: int) -> int
    decreases k,
{
    if k <= 0 {
        0
    } else {
        gross_profit(s, k - 1) + if pnl_at(s, k - 1) > 0 { pnl_at(s, k - 1) } else { 0 }
    }
}

/// Sum of the magnitudes of the losses among the first `k`.
pub open spec fn gross_loss(s: Seq<CompletedTrade>, k: int) -> int
    decreases k,
{
    if k <= 0 {
        0
    } else {
        gross_loss(s, k - 1) + if pnl_at(s, k - 1) < 0 { -pnl_at(s, k - 1) } else { 0 }
    }
}

/// Cumulative profit through the first `k` trades.
pub open spec fn cumulative(s: Seq<CompletedTrade>, k: int) -> int
    decreases k,
{
    if k <= 0 {
        0
    } else {
        cumulative(s, k - 1) + pnl_at(s, k - 1)
    }
}

/// Largest cumulative profit reached through the first `k` trades, and
/// never below zero.
pub open spec fn peak(s: Seq<CompletedTrade>, k: int) -> int
    decreases k,
{
    if k <= 0 {
        0
    } else if cumulative(s, k) > peak(s, k - 1) {
        cumulative(s, k)
    } else {
        peak(s, k - 1)
    }
}

/// Largest fall from a peak seen through the first `k` trades.
pub open spec fn max_drawdown(s: Seq<CompletedTrade>, k: int) -> int
    decreases k,
{
    if k <= 0 {
        0
    } else if peak(s, k) - cumulative(s, k) > max_drawdown(s, k - 1) {
        peak(s, k) - cumulative(s, k)
    } else {
        max_drawdown(s, k - 1)
    }
}

/// Largest profit of a winning trade among the first `k`; zero if none.
pub open spec fn largest_win(s: Seq<CompletedTrade>, k: int) -> int
    decreases k,
{
    if k <= 0 {
        0
    } else if pnl_at(s, k - 1) > largest_win(s, k - 1) {
        pnl_at(s, k - 1)
    } else {
        largest_win(s, k - 1)
    }
}

/// Largest loss magnitude among the first `k`; zero if none.
pub open spec fn largest_loss(s: Seq<CompletedTrade>, k: int) -> int
    decreases k,
{
    if k <= 0 {
        0
    } else if -pnl_at(s, k - 1) > largest_loss(s, k - 1) {
        -pnl_at(s, k - 1)
    } else {
        largest_loss(s, k - 1)
    }
}

/// Length of the run of winning trades that ends at trade `k - 1`.
pub open spec fn win_run(s: Seq<CompletedTrade>, k: int) -> int
    decreases k,
{
    if k <= 0 {
        0
    } else if pnl_at(s, k - 1) > 0 {
        win_run(s, k - 1) + 1
    } else {
        0
    }
}

/// Length of the run of non-winning trades that ends at trade `k - 1`.
pub open spec fn loss_run(s: Seq<CompletedTrade>, k: int) -> int
    decreases k,
{
    if k <= 0 {
        0
    } else if pnl_at(s, k - 1) > 0 {
        0
    } else {
        loss_run(s, k - 1) + 1
    }
}

/// Longest run of winning trades among the first `k`.
pub open spec fn max_win_run(s: Seq<CompletedTrade>, k: int) -> int
    decreases k,
{
    if k <= 0 {
        0
    } else if win_run(s, k) > max_win_run(s, k - 1) {
        win_run(s, k)
    } else {
        max_win_run(s, k - 1)
    }
}

/// Longest run of non-winning trades among the first `k`.
pub open spec fn max_loss_run(s: Seq<CompletedTrade>, k: int) -> int
    decreases k,
{
    if k <= 0 {
        0
    } else if loss_run(s, k) > max_loss_run(s, k - 1) {
        loss_run(s, k)
    } else {
        max_loss_run(s, k - 1)
    }
}

/// Window after adding `t`: appended, the oldest dropped beyond `cap`.
pub open spec fn window_after(s: Seq<CompletedTrade>, t: CompletedTrade, cap: int) -> Seq<CompletedTrade> {
    if s.len() + 1 > cap {
        s.push(t).drop_first()
    } else {
        s.push(t)
    }
}

/// Keeps the most recent closed trades and derives statistics from them.
pub struct MetricsCalculator {
    trades: Vec<CompletedTrade>,
    max_history: usize,
}

impl MetricsCalculator {
    /// The window, oldest first.
    pub closed spec fn trades(&self) -> Seq<CompletedTrade> {
        self.trades@
    }

    /// Most trades the window keeps.
    pub closed spec fn capacity(&self) -> nat {
        self.max_history as nat
    }

    pub closed spec fn wf(&self) -> bool {
        &&& self.max_history <= MAX_WINDOW
        &&& self.trades@.len() <= self.max_history
        &&& forall|i: int| 0 <= i < self.trades@.len() ==> is_amount(#[trigger] self.trades@[i].pnl as int)
    }

    /// An empty window that keeps up to `max_history` trades.
    pub fn new(max_history: usize) -> (r: Self)
        requires
            max_history <= MAX_WINDOW,
        ensures
            r.wf(),
            r.trades().len() == 0,
            r.capacity() == max_history,
    {
        MetricsCalculator { trades: Vec::new(), max_history }
    }

    /// Appends a trade, evicting the oldest once over capacity.
    pub fn add_trade(&mut self, trade: CompletedTrade)
        requires
            old(self).wf(),
            is_amount(trade.pnl as int),
        ensures
            final(self).wf(),
            final(self).capacity() == old(self).capacity(),
            final(self).trades() == window_after(old(self).trades(), trade, old(self).capacity() as int),
    {
        self.trades.push(trade);
        if self.trades.len() > self.max_history {
            self.trades.remove(0);
        }
    }

    /// Number of trades in the window.
    pub fn len(&self) -> (r: usize)
        ensures
            r == self.trades().len(),
    {
        self.trades.len()
    }

    /// Profit of the trade at `index`, oldest first.
    pub fn pnl_at(&self, index: usize) -> (r: i64)
        requires
            index < self.trades().len(),
        ensures
            r == self.trades()[index as int].pnl,
    {
        self.trades[index].pnl
    }

    /// Statistics of the current window, recomputed from scratch in the
    /// order the trades were added. An empty window gives all zeros.
    pub fn calculate(&self) -> (r: PerformanceMetrics)
        requires
            self.wf(),
        ensures
            ({
                let s = self.trades();
                let n = s.len() as int;
                &&& n == 0 ==> r.is_zero()
                &&& r.total_trades == n
                &&& r.winning_trades == win_count(s, n)
                &&& r.losing_trades == loss_count(s, n)
                &&& n > 0 ==> r.win_rate == win_count(s, n) * SCALE / n
                &&& r.profit_factor == (if gross_loss(s, n) > 0 {
                    gross_profit(s, n) * SCALE / gross_loss(s, n)
                } else {
                    0
                })
                &&& r.avg_win == (if win_count(s, n) > 0 { gross_profit(s, n) / win_count(s, n) } else { 0 })
                &&& r.avg_loss == (if loss_count(s, n) > 0 { gross_loss(s, n) / loss_count(s, n) } else { 0 })
                &&& r.total_pnl == cumulative(s, n)
                &&& r.max_drawdown == max_drawdown(s, n)
                &&& r.current_drawdown == peak(s, n) - cumulative(s, n)
                &&& r.largest_win == largest_win(s, n)
                &&& r.largest_loss == largest_loss(s, n)
                &&& r.consecutive_wins == win_run(s, n)
                &&& r.consecutive_losses == loss_run(s, n)
                &&& r.max_consecutive_wins == max_win_run(s, n)
                &&& r.max_consecutive_losses == max_loss_run(s, n)
                &&& r.valid_trading_days == 0
                &&& 0 <= r.win_rate <= SCALE
                &&& r.losing_trades == 0 ==> r.profit_factor == 0
                &&& r.max_drawdown >= 0
            }),
    {
        let n = self.trades.len();
        if n == 0 {
            return PerformanceMetrics::default();
        }
        let ghost s = self.trades@;
        let mut wins: usize = 0;
        let mut losses: usize = 0;
        let mut gross_win: i128 = 0;
        let mut gross_lost: i128 = 0;
        let mut cum: i128 = 0;
        let mut top: i128 = 0;
        let mut mdd: i128 = 0;
        let mut big_win: i64 = 0;
        let mut big_loss: i64 = 0;
        let mut run_w: usize = 0;
        let mut run_l: usize = 0;
        let mut best_w: usize = 0;
        let mut best_l: usize = 0;
        let mut i: usize = 0;
        while i < n
            invariant
                self.wf(),
                s == self.trades@,
                n == s.len() <= MAX_WINDOW,
                0 <= i <= n,
                wins == win_count(s, i as int),
                losses == loss_count(s, i as int),
                gross_win == gross_profit(s, i as int),
                gross_lost == gross_loss(s, i as int),
                cum == cumulative(s, i as int),
                top == peak(s, i as int),
                mdd == max_drawdown(s, i as int),
                big_win == largest_win(s, i as int),
                big_loss == largest_loss(s, i as int),
                run_w == win_run(s, i as int),
                run_l == loss_run(s, i as int),
                best_w == max_win_run(s, i as int),
                best_l == max_loss_run(s, i as int),
                wins <= i,
                losses <= i,
                run_w <= i,
                run_l <= i,
                best_w <= i,
                best_l <= i,
                0 <= gross_win <= wins * AMOUNT_LIMIT,
                losses <= gross_lost <= losses * AMOUNT_LIMIT,
                -(i * AMOUNT_LIMIT) <= cum <= i * AMOUNT_LIMIT,
                0 <= top <= i * AMOUNT_LIMIT,
                0 <= mdd <= 2 * (i * AMOUNT_LIMIT),
                0 <= big_win <= AMOUNT_LIMIT,
                0 <= big_loss <= AMOUNT_LIMIT,
            decreases n - i,
        {
            let pnl = self.trades[i].pnl;
            assert(is_amount(s[i as int].pnl as int));
            proof {
                lemma_mul_step(i as int, AMOUNT_LIMIT as int);
                lemma_mul_step(wins as int, AMOUNT_LIMIT as int);
                lemma_mul_step(losses as int, AMOUNT_LIMIT as int);
            }
            if pnl > 0 {
                wins = wins + 1;
                gross_win = gross_win + pnl as i128;
                if pnl > big_win {
                    big_win = pnl;
                }
                run_w = run_w + 1;
                run_l = 0;
                if run_w > best_w {
                    best_w = run_w;
                }
            } else {
                if pnl < 0 {
                    losses = losses + 1;
                    gross_lost = gross_lost - pnl as i128;
                }
                if -pnl > big_loss {
                    big_loss = -pnl;
                }
                run_l = run_l + 1;
                run_w = 0;
                if run_l > best_l {
                    best_l = run_l;
                }
            }
            cum = cum + pnl as i128;
            if cum > top {
                top = cum;
            }
            if top - cum > mdd {
                mdd = top - cum;
            }
            i = i + 1;
        }
        proof {
            lemma_mul_step(n as int, AMOUNT_LIMIT as int);
            lemma_mul_step(wins as int, AMOUNT_LIMIT as int);
            lemma_mul_step(losses as int, AMOUNT_LIMIT as int);
            assert(wins * SCALE <= n * SCALE) by (nonlinear_arith)
                requires
                    wins <= n,
            ;
            vstd::arithmetic::div_mod::lemma_div_is_ordered(wins * SCALE, n * SCALE, n as int);
            vstd::arithmetic::div_mod::lemma_div_multiples_vanish(SCALE as int, n as int);
            vstd::arithmetic::div_mod::lemma_div_pos_is_pos(wins * SCALE, n as int);
        }
        let win_rate = (wins as i128 * SCALE as i128 / n as i128) as i64;
        let profit_factor: i128 = if gross_lost > 0 {
            gross_win * SCALE as i128 / gross_lost
        } else {
            0
        };
        let avg_win: i64 = if wins > 0 {
            proof {
                vstd::arithmetic::div_mod::lemma_div_is_ordered(gross_win as int, wins * AMOUNT_LIMIT, wins as int);
                vstd::arithmetic::div_mod::lemma_div_multiples_vanish(AMOUNT_LIMIT as int, wins as int);
                vstd::arithmetic::div_mod::lemma_div_pos_is_pos(gross_win as int, wins as int);
            }
            (gross_win / wins as i128) as i64
        } else {
            0
        };
        let avg_loss: i64 = if losses > 0 {
            proof {
                vstd::arithmetic::div_mod::lemma_div_is_ordered(gross_lost as int, losses * AMOUNT_LIMIT, losses as int);
                vstd::arithmetic::div_mod::lemma_div_multiples_vanish(AMOUNT_LIMIT as int, losses as int);
                vstd::arithmetic::div_mod::lemma_div_pos_is_pos(gross_lost as int, losses as int);
            }
            (gross_lost / losses as i128) as i64
        } else {
            0
        };
        PerformanceMetrics {
            total_trades: n,
            winning_trades: wins,
            losing_trades: losses,
            win_rate,
            profit_factor,
            max_drawdown: mdd,
            current_drawdown: top - cum,
            total_pnl: cum,
            avg_win,
            avg_loss,
            largest_win: big_win,
            largest_loss: big_loss,
            consecutive_wins: run_w,
            consecutive_losses: run_l,
            max_consecutive_wins: best_w,
            max_consecutive_losses: best_l,
            valid_trading_days: 0,
        }
    }
}

} // verus!
