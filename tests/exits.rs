use hyrotrader::fixed::SCALE;
use hyrotrader::take_profit::{DynamicTPManager, TakeProfitLevels};
use hyrotrader::types::TrendDirection;
use hyrotrader::TradingError;

fn long_levels() -> TakeProfitLevels {
    DynamicTPManager::new().calculate_targets(1000, 900, 20, TrendDirection::Long).unwrap()
}

#[test]
fn long_ladder() {
    let l = long_levels();
    assert_eq!((l.tp1.price, l.tp2.price, l.tp3.price), (1150, 1250, 1400));
    assert_eq!((l.tp1.size_percent, l.tp2.size_percent, l.tp3.size_percent), (40 * SCALE, 40 * SCALE, 20 * SCALE));
    assert!(!l.tp1.hit && !l.tp2.hit && !l.tp3.hit);
    assert!(!l.trailing_stop.enabled);
    assert_eq!(l.trailing_stop.distance, 30);
    assert_eq!(l.trailing_stop.current_level, 900);
}

#[test]
fn short_ladder() {
    let l = DynamicTPManager::new().calculate_targets(1000, 1100, 7, TrendDirection::Short).unwrap();
    assert_eq!((l.tp1.price, l.tp2.price, l.tp3.price), (850, 750, 600));
    assert_eq!(l.trailing_stop.distance, 10);
    assert_eq!(l.trailing_stop.current_level, 1100);
}

#[test]
fn ladder_widens_with_each_target() {
    let m = DynamicTPManager::new();
    let l = m.calculate_targets(1000, 997, 1, TrendDirection::Long).unwrap();
    assert_eq!((l.tp1.price, l.tp2.price, l.tp3.price), (1004, 1007, 1012));
    let s = m.calculate_targets(1000, 1001, 1, TrendDirection::Short).unwrap();
    assert_eq!((s.tp1.price, s.tp2.price, s.tp3.price), (999, 998, 996));
}

#[test]
fn neutral_direction_is_invalid_input() {
    let r = DynamicTPManager::new().calculate_targets(1000, 900, 20, TrendDirection::Neutral);
    assert!(matches!(r, Err(TradingError::InvalidInput)));
}

#[test]
fn non_positive_atr_is_invalid_input() {
    let m = DynamicTPManager::new();
    assert!(matches!(m.calculate_targets(1000, 900, 0, TrendDirection::Long), Err(TradingError::InvalidInput)));
    assert!(matches!(m.calculate_targets(1000, 900, -5, TrendDirection::Short), Err(TradingError::InvalidInput)));
}

#[test]
fn trailing_stop_ratchets_up_for_long() {
    let m = DynamicTPManager::new();
    let mut l = long_levels();
    m.update_trailing_stop(&mut l, 1200, TrendDirection::Long);
    assert_eq!(l.trailing_stop.current_level, 900);
    l.trailing_stop.enabled = true;
    l.tp1.hit = true;
    let mut seen = vec![];
    for price in [1200, 1100, 1300, 800, 1250] {
        m.update_trailing_stop(&mut l, price, TrendDirection::Long);
        seen.push(l.trailing_stop.current_level);
    }
    assert_eq!(seen, vec![1170, 1170, 1270, 1270, 1270]);
}

#[test]
fn trailing_stop_ratchets_down_for_short() {
    let m = DynamicTPManager::new();
    let mut l = m.calculate_targets(1000, 1100, 20, TrendDirection::Short).unwrap();
    l.trailing_stop.enabled = true;
    l.tp1.hit = true;
    let mut seen = vec![];
    for price in [900, 950, 800, 1200] {
        m.update_trailing_stop(&mut l, price, TrendDirection::Short);
        seen.push(l.trailing_stop.current_level);
    }
    assert_eq!(seen, vec![930, 930, 830, 830]);
}

#[test]
fn trailing_waits_for_first_target() {
    let m = DynamicTPManager::new();
    let mut l = long_levels();
    l.trailing_stop.enabled = true;
    m.update_trailing_stop(&mut l, 1500, TrendDirection::Long);
    assert_eq!(l.trailing_stop.current_level, 900);
}

#[test]
fn default_manager_builds_the_same_ladder() {
    let a = DynamicTPManager::default().calculate_targets(500, 450, 10, TrendDirection::Long).unwrap();
    assert_eq!((a.tp1.price, a.tp2.price, a.tp3.price), (575, 625, 700));
    assert_eq!(a.trailing_stop.distance, 15);
}
