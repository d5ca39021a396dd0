//! System health reporting.
use vstd::prelude::*;

verus! {

/// Result of a health check; `last_check` is in Unix seconds.
#[derive(Debug, Clone)]
pub struct HealthStatus {
    pub is_healthy: bool,
    pub issues: Vec<String>,
    pub last_check: i64,
}

/// Collects the problems that should keep the agent from trading.
pub struct HealthChecker;

impl HealthChecker {
    pub fn new() -> (r: Self)
        ensures
            r == HealthChecker,
    {
        HealthChecker
    }

    /// Health at `now`: healthy exactly when no issue was found. No probe
    /// is wired in yet, so none is found.
    pub fn check_system_health(&self, now: i64) -> (r: HealthStatus)
        ensures
            r.is_healthy == (r.issues@.len() == 0),
            r.issues@.len() == 0,
            r.last_check == now,
    {
        let issues: Vec<String> = Vec::new();
        let is_healthy = issues.len() == 0;
        HealthStatus { is_healthy, issues, last_check: now }
    }
}

impl Default for HealthChecker {
    fn default() -> (r: Self)
        ensures
            r == HealthChecker,
    {
        Self::new()
    }
}

/// Severity of an operator alert.
#[derive(Debug, Clone, Copy, PartialEq, Eq, Structural)]
pub enum AlertLevel {
    Info,
    Warning,
    Critical,
}

/// Marker put in front of an alert of the given level.
pub open spec fn alert_prefix_spec(level: AlertLevel) -> Seq<char> {
    match level {
        AlertLevel::Info => "ℹ️"@,
        AlertLevel::Warning => "⚠️"@,
        AlertLevel::Critical => "🛑"@,
    }
}

pub fn alert_prefix(level: AlertLevel) -> (r: &'static str)
    ensures
        r@ == alert_prefix_spec(level),
{
    match level {
        AlertLevel::Info => "ℹ️",
        AlertLevel::Warning => "⚠️",
        AlertLevel::Critical => "🛑",
    }
}

} // verus!
