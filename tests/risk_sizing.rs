use hyrotrader::fixed::SCALE;
use hyrotrader::risk::{AdaptiveRiskManager, CorrelationMatrix, StreakDetector, TradeResult};
use hyrotrader::TradingError;

const INITIAL: i64 = 10_000 * SCALE;

fn balance_at(profit_percent: i64) -> i64 {
    INITIAL + INITIAL / 100 * profit_percent
}

fn manager() -> AdaptiveRiskManager {
    AdaptiveRiskManager::new(50_000_000, 30_000_000, 100_000_000).unwrap()
}

fn outcome(pnl: i64) -> TradeResult {
    TradeResult { pnl, timestamp: 0 }
}

#[test]
fn risk_follows_profit_phases() {
    let mut m = manager();
    assert_eq!(m.calculate_risk_percent(balance_at(2), INITIAL, 0), 50_000_000);
    assert_eq!(m.calculate_risk_percent(balance_at(4), INITIAL, 0), 70_000_000);
    assert_eq!(m.calculate_risk_percent(balance_at(8), INITIAL, SCALE), 100_000_000);
}

#[test]
fn drawdown_below_target_keeps_phase_risk() {
    // Below the 10% target the phase decides, whatever the drawdown.
    let mut m = manager();
    assert_eq!(m.calculate_risk_percent(balance_at(8), INITIAL, 5 * SCALE), 100_000_000);
}

#[test]
fn phase_boundaries() {
    let mut m = manager();
    assert_eq!(m.calculate_risk_percent(balance_at(3), INITIAL, 0), 70_000_000);
    assert_eq!(m.calculate_risk_percent(balance_at(6), INITIAL, 0), 100_000_000);
    assert_eq!(m.calculate_risk_percent(balance_at(10), INITIAL, 0), 50_000_000);
    assert_eq!(m.calculate_risk_percent(INITIAL - 1, INITIAL, 0), 50_000_000);
}

#[test]
fn past_target_drawdown_and_streaks() {
    let mut m = manager();
    assert_eq!(m.calculate_risk_percent(balance_at(12), INITIAL, 4 * SCALE), 30_000_000);
    assert_eq!(m.calculate_risk_percent(balance_at(12), INITIAL, 3 * SCALE), 50_000_000);
    m.record_trade(outcome(-10));
    m.record_trade(outcome(-20));
    assert_eq!(m.calculate_risk_percent(balance_at(12), INITIAL, 0), 30_000_000);
    m.record_trade(outcome(15));
    assert_eq!(m.calculate_risk_percent(balance_at(12), INITIAL, 0), 50_000_000);
    m.record_trade(outcome(25));
    assert_eq!(m.calculate_risk_percent(balance_at(12), INITIAL, 0), 50_000_000);
}

#[test]
fn history_keeps_last_ten() {
    let mut m = manager();
    m.record_trade(outcome(-1));
    m.record_trade(outcome(-1));
    for _ in 0..9 {
        m.record_trade(outcome(5));
    }
    // the two losses were pushed out by wins; two fresh losses count again
    m.record_trade(outcome(-1));
    m.record_trade(outcome(-1));
    assert_eq!(m.calculate_risk_percent(balance_at(12), INITIAL, 0), 30_000_000);
}

#[test]
fn risk_stays_within_bounds() {
    let mut m = manager();
    for p in [-50, 0, 2, 3, 5, 6, 9, 10, 15, 40] {
        for dd in [0, 2 * SCALE, 3 * SCALE + 1, 9 * SCALE] {
            let r = m.calculate_risk_percent(balance_at(p), INITIAL, dd);
            assert!((30_000_000..=100_000_000).contains(&r));
        }
    }
}

#[test]
fn contradictory_bounds_are_rejected() {
    assert!(matches!(AdaptiveRiskManager::new(50, 60, 100), Err(TradingError::ConfigurationError)));
    assert!(matches!(AdaptiveRiskManager::new(50, 10, 40), Err(TradingError::ConfigurationError)));
    assert!(AdaptiveRiskManager::new(50, 50, 50).is_ok());
}

#[test]
fn streak_detector_counts_trailing_losses() {
    let d = StreakDetector::new(3);
    let mixed = [outcome(5), outcome(-1), outcome(-2)];
    assert!(d.should_reduce_risk(&mixed));
    assert!(!d.should_activate_kill_switch(&mixed));
    let losing = [outcome(-1), outcome(0), outcome(-2)];
    assert!(d.should_activate_kill_switch(&losing));
    assert!(!d.should_reduce_risk(&[outcome(-1)]));
    assert!(!d.should_reduce_risk(&[outcome(-1), outcome(4)]));
    assert!(outcome(1).is_win());
    assert!(!outcome(0).is_win());
}

#[test]
fn correlation_without_data() {
    let mut m = CorrelationMatrix::default();
    assert_eq!(m.calculate_correlation("BTCUSDT", "ETHUSDT"), 0);
    assert!(!m.are_highly_correlated("BTCUSDT", "ETHUSDT", 0));
    assert!(!CorrelationMatrix::new().are_highly_correlated("A", "B", -1));
}
