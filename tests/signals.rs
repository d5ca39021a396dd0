use hyrotrader::entry::{FibZone, SmartEntryManager};
use hyrotrader::fixed::SCALE;
use hyrotrader::health::{alert_prefix, AlertLevel, HealthChecker};
use hyrotrader::intelligence::{shortlist, AssetRanker, AssetScore, ConfluenceScorer, MarketRegime, MarketRegimeDetector};
use hyrotrader::news::{is_weekend, trading_allowed, ImpactLevel, NewsCalendar, NewsEvent};
use hyrotrader::types::{MarketData, Timeframe, TrendDirection};

const DAY: i64 = 86_400;

fn event(impact: ImpactLevel, time: i64) -> NewsEvent {
    NewsEvent { title: "CPI".to_string(), impact, currency: "USD".to_string(), time }
}

#[test]
fn confluence_of_unimplemented_signals() {
    let data = MarketData::new("BTCUSDT".to_string(), Timeframe::M15);
    let r = ConfluenceScorer::new(70).calculate_score(&data, Timeframe::M15);
    assert_eq!(r.total_score, 0);
    assert!(!r.is_valid);
    let weights: Vec<u8> = r.signals.iter().map(|s| s.weight).collect();
    assert_eq!(weights, vec![20, 20, 10, 10, 15, 15, 10]);
    assert!(ConfluenceScorer::new(0).calculate_score(&data, Timeframe::M15).is_valid);
    let session = ConfluenceScorer::new(0).check_trading_session(10);
    assert_eq!((session.score, session.weight, session.is_active), (0, 10, false));
}

#[test]
fn regime_gate() {
    let d = MarketRegimeDetector::new();
    let data = MarketData::new("BTCUSDT".to_string(), Timeframe::H1);
    assert_eq!(d.detect_regime(&data), MarketRegime::Ranging);
    assert!(d.is_safe_to_trade(MarketRegime::Trending));
    assert!(!d.is_safe_to_trade(MarketRegime::Volatile));
}

#[test]
fn ranking_keeps_assets_with_data() {
    let data = vec![
        MarketData::new("ETHUSDT".to_string(), Timeframe::H1),
        MarketData::new("BTCUSDT".to_string(), Timeframe::H1),
    ];
    let candidates = vec!["BTCUSDT".to_string(), "XRPUSDT".to_string(), "ETHUSDT".to_string()];
    let ranked = AssetRanker::new().rank_assets(candidates, &data);
    let symbols: Vec<&str> = ranked.iter().map(|s| s.symbol.as_str()).collect();
    assert_eq!(symbols, vec!["BTCUSDT", "ETHUSDT"]);
    assert!(ranked.iter().all(|s| s.total_score == 50 * SCALE));
}

#[test]
fn fib_zones_long_and_short() {
    let m = SmartEntryManager::new(70);
    assert_eq!(m.calculate_fib_zone(1700, 2000, 1000, TrendDirection::Long), FibZone::Premium);
    assert_eq!(m.calculate_fib_zone(1550, 2000, 1000, TrendDirection::Long), FibZone::Standard);
    assert_eq!(m.calculate_fib_zone(1400, 2000, 1000, TrendDirection::Long), FibZone::Marginal);
    assert_eq!(m.calculate_fib_zone(1900, 2000, 1000, TrendDirection::Long), FibZone::Invalid);
    assert_eq!(m.calculate_fib_zone(1300, 2000, 1000, TrendDirection::Short), FibZone::Premium);
    assert_eq!(m.calculate_fib_zone(1450, 2000, 1000, TrendDirection::Short), FibZone::Standard);
    assert_eq!(m.calculate_fib_zone(1600, 2000, 1000, TrendDirection::Short), FibZone::Marginal);
    assert_eq!(m.calculate_fib_zone(1100, 2000, 1000, TrendDirection::Short), FibZone::Invalid);
    assert_eq!(m.calculate_fib_zone(1700, 2000, 1000, TrendDirection::Neutral), FibZone::Invalid);
}

#[test]
fn news_blackout_window() {
    let mut c = NewsCalendar::new();
    c.add_event(event(ImpactLevel::Medium, 50_000));
    c.add_event(event(ImpactLevel::High, 100_000));
    assert!(c.is_safe_to_trade(50_000));
    assert!(c.is_safe_to_trade(100_000 - 3_601));
    assert!(!c.is_safe_to_trade(100_000 - 3_600));
    assert!(!c.is_safe_to_trade(100_000 + 7_200));
    assert!(c.is_safe_to_trade(100_000 + 7_201));
}

#[test]
fn upcoming_events_within_hours() {
    let mut c = NewsCalendar::new();
    c.add_event(event(ImpactLevel::High, 100_000));
    c.add_event(event(ImpactLevel::Low, 200_000));
    c.add_event(event(ImpactLevel::Low, 98_000));
    let soon = c.get_upcoming_events(1, 99_000);
    assert_eq!(soon.len(), 1);
    assert_eq!(soon[0].time, 100_000);
    assert_eq!(c.get_upcoming_events(48, 99_000).len(), 2);
}

#[test]
fn weekend_and_news_gate() {
    let c = NewsCalendar::new();
    // 1970-01-03 was a Saturday, 1970-01-05 a Monday.
    assert!(!trading_allowed(&c, 2 * DAY + 10, false));
    assert!(trading_allowed(&c, 2 * DAY + 10, true));
    assert!(trading_allowed(&c, 4 * DAY + 10, false));
    assert!(is_weekend(6));
    assert!(!is_weekend(0));
    let mut busy = NewsCalendar::new();
    busy.add_event(event(ImpactLevel::High, 4 * DAY));
    assert!(!trading_allowed(&busy, 4 * DAY + 10, true));
}

#[test]
fn health_report() {
    let h = HealthChecker::new().check_system_health(42);
    assert!(h.is_healthy);
    assert!(h.issues.is_empty());
    assert_eq!(h.last_check, 42);
}

#[test]
fn alert_prefixes() {
    assert_eq!(alert_prefix(AlertLevel::Critical), "🛑");
    assert_eq!(alert_prefix(AlertLevel::Info), "ℹ️");
    assert_ne!(alert_prefix(AlertLevel::Warning), alert_prefix(AlertLevel::Info));
}

#[test]
fn defaults_match_constructors() {
    let c = NewsCalendar::default();
    assert!(c.is_safe_to_trade(0));
    assert!(HealthChecker::default().check_system_health(1).is_healthy);
    let data = MarketData::new("BTCUSDT".to_string(), Timeframe::H1);
    assert_eq!(MarketRegimeDetector::default().detect_regime(&data), MarketRegime::Ranging);
    let ranked = AssetRanker::default().rank_assets(vec!["BTCUSDT".to_string()], &vec![data]);
    assert_eq!(ranked.len(), 1);
}

fn scored(symbol: &str, total_score: i64) -> AssetScore {
    AssetScore {
        symbol: symbol.to_string(),
        volatility_score: 0,
        trend_strength: 0,
        liquidity_score: 0,
        spread_cost: 0,
        total_score,
    }
}

#[test]
fn shortlist_takes_strong_leaders() {
    let ranked = vec![scored("A", 90 * SCALE), scored("B", 75 * SCALE), scored("C", 80 * SCALE)];
    assert_eq!(shortlist(&ranked), vec![0, 1]);
    let weak = vec![scored("A", 80 * SCALE), scored("B", 74 * SCALE), scored("C", 99 * SCALE)];
    assert_eq!(shortlist(&weak), vec![0]);
    assert!(shortlist(&vec![]).is_empty());
    let ranked = AssetRanker::new().rank_assets(vec!["BTCUSDT".to_string()], &vec![MarketData::new("BTCUSDT".to_string(), Timeframe::H1)]);
    assert!(shortlist(&ranked).is_empty());
}
