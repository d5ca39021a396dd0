use hyrotrader::fixed::SCALE;
use hyrotrader::metrics::{CompletedTrade, MetricsCalculator, PerformanceMetrics};
use hyrotrader::policy::{
    next_action, should_halt, target_reached, validate_settings, BalanceState, KillSwitchConfig, LoopAction,
    TargetConfig,
};
use hyrotrader::TradingError;

fn trade(pnl: i64) -> CompletedTrade {
    CompletedTrade {
        symbol: "BTCUSDT".to_string(),
        pnl,
        entry_time: 0,
        exit_time: 1,
        direction: "long".to_string(),
    }
}

fn window(pnls: &[i64]) -> MetricsCalculator {
    let mut m = MetricsCalculator::new(1000);
    for &p in pnls {
        m.add_trade(trade(p));
    }
    m
}

#[test]
fn drawdown_of_example_sequence() {
    let r = window(&[100, -50, 80, -150, 30]).calculate();
    assert_eq!(r.max_drawdown, 150);
    assert_eq!(r.current_drawdown, 120);
    assert_eq!(r.total_pnl, 10);
}

#[test]
fn statistics_of_example_sequence() {
    let r = window(&[100, -50, 80, -150, 30]).calculate();
    assert_eq!((r.total_trades, r.winning_trades, r.losing_trades), (5, 3, 2));
    assert_eq!(r.win_rate, 60_000_000);
    assert_eq!(r.profit_factor, 105_000_000);
    assert_eq!((r.avg_win, r.avg_loss), (70, 100));
    assert_eq!((r.largest_win, r.largest_loss), (100, 150));
    assert_eq!((r.consecutive_wins, r.consecutive_losses), (1, 0));
    assert_eq!((r.max_consecutive_wins, r.max_consecutive_losses), (1, 1));
    assert_eq!(r.valid_trading_days, 0);
}

#[test]
fn no_losses_means_zero_profit_factor() {
    let r = window(&[10, 20, 5]).calculate();
    assert_eq!(r.profit_factor, 0);
    assert_eq!(r.win_rate, SCALE);
    let r = window(&[0, 0]).calculate();
    assert_eq!(r.profit_factor, 0);
    assert_eq!(r.win_rate, 0);
}

#[test]
fn streaks_and_runs() {
    let r = window(&[5, 6, -1, 0, -3, 7, -2, -2]).calculate();
    assert_eq!(r.max_consecutive_wins, 2);
    assert_eq!(r.max_consecutive_losses, 3);
    assert_eq!(r.consecutive_losses, 2);
    assert_eq!(r.consecutive_wins, 0);
}

#[test]
fn empty_window_is_all_zero() {
    let r = MetricsCalculator::new(10).calculate();
    assert_eq!(r.total_trades, 0);
    assert_eq!(r.win_rate, 0);
    assert_eq!(r.max_drawdown, 0);
    assert_eq!(r.consecutive_losses, 0);
    let d = PerformanceMetrics::default();
    assert_eq!(d.profit_factor, 0);
    assert_eq!(d.largest_loss, 0);
}

#[test]
fn window_evicts_oldest() {
    let mut m = MetricsCalculator::new(3);
    for p in [1, 2, 3, 4, 5] {
        m.add_trade(trade(p));
    }
    assert_eq!(m.len(), 3);
    assert_eq!(m.pnl_at(0), 3);
    assert_eq!(m.calculate().total_pnl, 12);
}

#[test]
fn kill_switch_on_fourth_loss() {
    let config = KillSwitchConfig { max_total_drawdown: 1_000_000, max_consecutive_losses: 4 };
    let mut m = window(&[50]);
    for _ in 0..3 {
        m.add_trade(trade(-1));
    }
    assert!(!should_halt(&m.calculate(), &config));
    m.add_trade(trade(-1));
    assert!(should_halt(&m.calculate(), &config));
}

#[test]
fn kill_switch_on_drawdown() {
    let config = KillSwitchConfig { max_total_drawdown: 100, max_consecutive_losses: 10 };
    assert!(!should_halt(&window(&[200, -100, 5]).calculate(), &config));
    assert!(should_halt(&window(&[200, -101, 5]).calculate(), &config));
}

#[test]
fn target_needs_profit_and_days() {
    let target = TargetConfig { target_profit_percent: 10 * SCALE, min_trading_days: 5 };
    let reached = BalanceState { initial_balance: 10_000 * SCALE, current_balance: 11_000 * SCALE, valid_trading_days: 5 };
    assert!(target_reached(&reached, &target));
    let early = BalanceState { valid_trading_days: 4, ..reached };
    assert!(!target_reached(&early, &target));
    let short = BalanceState { current_balance: 10_999 * SCALE, ..reached };
    assert!(!target_reached(&short, &target));
}

#[test]
fn loop_decision_order() {
    let target = TargetConfig { target_profit_percent: 10 * SCALE, min_trading_days: 0 };
    let halt = KillSwitchConfig { max_total_drawdown: 0, max_consecutive_losses: 1 };
    let losing = window(&[-5]).calculate();
    let done = BalanceState { initial_balance: 100, current_balance: 110, valid_trading_days: 0 };
    let going = BalanceState { current_balance: 105, ..done };
    assert_eq!(next_action(&done, &target, &losing, &halt), LoopAction::TargetReached);
    assert_eq!(next_action(&going, &target, &losing, &halt), LoopAction::Halt);
    let calm = KillSwitchConfig { max_total_drawdown: 10, max_consecutive_losses: 3 };
    assert_eq!(next_action(&going, &target, &losing, &calm), LoopAction::Continue);
}

#[test]
fn settings_validation() {
    assert!(validate_settings(70, 30, 100, 10_000).is_ok());
    assert!(matches!(validate_settings(101, 30, 100, 10_000), Err(TradingError::ConfigurationError)));
    assert!(matches!(validate_settings(70, 200, 100, 10_000), Err(TradingError::ConfigurationError)));
    assert!(matches!(validate_settings(70, 30, 100, 0), Err(TradingError::ConfigurationError)));
}
