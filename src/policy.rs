//! Gates that decide whether trading goes on.
use vstd::prelude::*;
use crate::fixed::{is_amount, SCALE};
use crate::metrics::PerformanceMetrics;
use crate::TradingError;

verus! {

/// Thresholds of the kill switch.
#[derive(Debug, Clone, Copy)]
pub struct KillSwitchConfig {
    /// Largest drawdown tolerated, in the units of `max_drawdown`.
    pub max_total_drawdown: i128,
    /// Losses in a row that stop trading.
    pub max_consecutive_losses: usize,
}

/// Goal of a trading challenge.
#[derive(Debug, Clone, Copy)]
pub struct TargetConfig {
    /// Profit over the starting balance to reach, fixed-point percent.
    pub target_profit_percent: i64,
    /// Days with trading activity required.
    pub min_trading_days: u32,
}

/// Balance figures tracked by the control loop.
#[derive(Debug, Clone, Copy)]
pub struct BalanceState {
    pub initial_balance: i64,
    pub current_balance: i64,
    pub valid_trading_days: u32,
}

/// Trading stops once the drawdown exceeds its limit or the losing streak
/// reaches its limit.
pub open spec fn halt_spec(m: PerformanceMetrics, c: KillSwitchConfig) -> bool {
    m.max_drawdown > c.max_total_drawdown || m.consecutive_losses >= c.max_consecutive_losses
}

/// Profit reached the target share of the starting balance, compared
/// exactly, and enough trading days have passed.
pub open spec fn target_spec(b: BalanceState, c: TargetConfig) -> bool {
    (b.current_balance - b.initial_balance) * (100 * SCALE) >= b.initial_balance * c.target_profit_percent
        && b.valid_trading_days >= c.min_trading_days
}

/// Kill switch over the latest metrics snapshot.
pub fn should_halt(metrics: &PerformanceMetrics, config: &KillSwitchConfig) -> (r: bool)
    ensures
        r == halt_spec(*metrics, *config),
{
    metrics.max_drawdown > config.max_total_drawdown
        || metrics.consecutive_losses >= config.max_consecutive_losses
}

/// Whether the challenge goal is met.
pub fn target_reached(balance: &BalanceState, config: &TargetConfig) -> (r: bool)
    requires
        is_amount(balance.initial_balance as int),
        is_amount(balance.current_balance as int),
    ensures
        r == target_spec(*balance, *config),
{
    let diff = balance.current_balance as i128 - balance.initial_balance as i128;
    proof {
        assert(-(200_000_000_000_000_000int * (100 * SCALE)) <= diff * (100 * SCALE)
            <= 200_000_000_000_000_000int * (100 * SCALE)) by (nonlinear_arith)
            requires
                -200_000_000_000_000_000int <= diff <= 200_000_000_000_000_000int,
        ;
        let i = balance.initial_balance as int;
        let t = config.target_profit_percent as int;
        assert(-(100_000_000_000_000_000int * 0x8000_0000_0000_0000) <= i * t
            <= 100_000_000_000_000_000int * 0x8000_0000_0000_0000) by (nonlinear_arith)
            requires
                -100_000_000_000_000_000int <= i <= 100_000_000_000_000_000int,
                -0x8000_0000_0000_0000 <= t <= 0x8000_0000_0000_0000,
        ;
    }
    let scaled = diff * (100 * SCALE as i128);
    let goal = balance.initial_balance as i128 * config.target_profit_percent as i128;
    scaled >= goal && balance.valid_trading_days >= config.min_trading_days
}

/// What the control loop does after a cycle.
#[derive(Debug, Clone, Copy, PartialEq, Eq, Structural)]
pub enum LoopAction {
    /// Keep trading.
    Continue,
    /// The goal is met: stop.
    TargetReached,
    /// The kill switch fired: stop opening trades.
    Halt,
}

/// The decision after a cycle: the goal is checked first, then the kill
/// switch.
pub fn next_action(
    balance: &BalanceState,
    target: &TargetConfig,
    metrics: &PerformanceMetrics,
    kill_switch: &KillSwitchConfig,
) -> (r: LoopAction)
    requires
        is_amount(balance.initial_balance as int),
        is_amount(balance.current_balance as int),
    ensures
        r == (if target_spec(*balance, *target) {
            LoopAction::TargetReached
        } else if halt_spec(*metrics, *kill_switch) {
            LoopAction::Halt
        } else {
            LoopAction::Continue
        }),
{
    if target_reached(balance, target) {
        LoopAction::TargetReached
    } else if should_halt(metrics, kill_switch) {
        LoopAction::Halt
    } else {
        LoopAction::Continue
    }
}

/// Settings accepted at start-up: a confluence minimum of at most 100, a
/// minimum risk not above the maximum, and a positive starting capital.
pub open spec fn settings_ok(min_confluence_score: u8, risk_min: i64, risk_max: i64, initial_capital: i64) -> bool {
    min_confluence_score <= 100 && risk_min <= risk_max && initial_capital > 0
}

/// Checks start-up settings; a configuration error when they contradict.
pub fn validate_settings(min_confluence_score: u8, risk_min: i64, risk_max: i64, initial_capital: i64) -> (r: Result<
    (),
    TradingError,
>)
    ensures
        r.is_ok() <==> settings_ok(min_confluence_score, risk_min, risk_max, initial_capital),
        r is Err ==> r == Err::<(), TradingError>(TradingError::ConfigurationError),
{
    if min_confluence_score > 100 {
        return Err(TradingError::ConfigurationError);
    }
    if risk_min > risk_max {
        return Err(TradingError::ConfigurationError);
    }
    if initial_capital <= 0 {
        return Err(TradingError::ConfigurationError);
    }
    Ok(())
}

} // verus!
