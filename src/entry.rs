//! Entry zones from Fibonacci retracements.
use vstd::prelude::*;
use crate::fixed::{is_amount, tdiv};
use crate::intelligence::ConfluenceScorer;
use crate::types::{MarketData, TrendDirection};

verus! {

/// Quality of an entry by how deep the pullback went.
#[derive(Debug, Clone, Copy, PartialEq, Eq, Structural)]
pub enum FibZone {
    /// 61.8% to 78.6% of the swing.
    Premium,
    /// 50% to 61.8%.
    Standard,
    /// 38.2% to 50%.
    Marginal,
    Invalid,
}

/// A proposed entry.
#[derive(Debug, Clone, Copy)]
pub struct EntrySignal {
    pub price: i64,
    pub fib_zone: FibZone,
    pub confluence_score: u8,
    pub direction: TrendDirection,
}

/// The retracement `permille / 1000` of the swing, measured up from `low`.
pub open spec fn fib_up(low: int, range: int, permille: int) -> int {
    low + tdiv(range * permille, 1000)
}

/// The retracement `permille / 1000` of the swing, measured down from `high`.
pub open spec fn fib_down(high: int, range: int, permille: int) -> int {
    high - tdiv(range * permille, 1000)
}

/// Zone of `price` within the swing from `low` to `high`.
pub open spec fn fib_zone_spec(price: int, high: int, low: int, direction: TrendDirection) -> FibZone {
    let range = high - low;
    if direction == TrendDirection::Long {
        if fib_up(low, range, 618) <= price <= fib_up(low, range, 786) {
            FibZone::Premium
        } else if fib_up(low, range, 500) <= price < fib_up(low, range, 618) {
            FibZone::Standard
        } else if fib_up(low, range, 382) <= price < fib_up(low, range, 500) {
            FibZone::Marginal
        } else {
            FibZone::Invalid
        }
    } else if direction == TrendDirection::Short {
        if fib_down(high, range, 786) <= price <= fib_down(high, range, 618) {
            FibZone::Premium
        } else if fib_down(high, range, 618) < price <= fib_down(high, range, 500) {
            FibZone::Standard
        } else if fib_down(high, range, 500) < price <= fib_down(high, range, 382) {
            FibZone::Marginal
        } else {
            FibZone::Invalid
        }
    } else {
        FibZone::Invalid
    }
}

/// Finds entries in the retracement of a swing.
pub struct SmartEntryManager {
    confluence_scorer: ConfluenceScorer,
}

impl SmartEntryManager {
    pub fn new(min_confluence: u8) -> (r: Self)
        ensures
            r.min_confluence() == min_confluence,
    {
        SmartEntryManager { confluence_scorer: ConfluenceScorer::new(min_confluence) }
    }

    pub closed spec fn min_confluence(&self) -> u8 {
        self.confluence_scorer.min()
    }

    /// Retracement `permille / 1000` of `range`, truncated toward zero.
    fn retrace(range: i64, permille: i64) -> (r: i64)
        requires
            -200_000_000_000_000_000 <= range <= 200_000_000_000_000_000,
            0 <= permille <= 1000,
        ensures
            r == tdiv(range * permille, 1000),
            -200_000_000_000_000_000 <= r <= 200_000_000_000_000_000,
    {
        proof {
            assert(-200_000_000_000_000_000_000int <= range * permille <= 200_000_000_000_000_000_000int)
                by (nonlinear_arith)
                requires
                    -200_000_000_000_000_000 <= range <= 200_000_000_000_000_000,
                    0 <= permille <= 1000,
            ;
            crate::fixed::lemma_tdiv_bound(range * permille, 1000, 200_000_000_000_000_000);
        }
        (range as i128 * permille as i128 / 1000) as i64
    }

    /// Zone of `price` in the pullback of the swing from `low` to `high`.
    pub fn calculate_fib_zone(&self, price: i64, high: i64, low: i64, direction: TrendDirection) -> (r: FibZone)
        requires
            is_amount(price as int),
            is_amount(high as int),
            is_amount(low as int),
        ensures
            r == fib_zone_spec(price as int, high as int, low as int, direction),
    {
        let range = high - low;
        let r382 = Self::retrace(range, 382);
        let r500 = Self::retrace(range, 500);
        let r618 = Self::retrace(range, 618);
        let r786 = Self::retrace(range, 786);
        match direction {
            TrendDirection::Long => {
                let fib_382 = low + r382;
                let fib_500 = low + r500;
                let fib_618 = low + r618;
                let fib_786 = low + r786;
                if price >= fib_618 && price <= fib_786 {
                    FibZone::Premium
                } else if price >= fib_500 && price < fib_618 {
                    FibZone::Standard
                } else if price >= fib_382 && price < fib_500 {
                    FibZone::Marginal
                } else {
                    FibZone::Invalid
                }
            },
            TrendDirection::Short => {
                let inv_382 = high - r382;
                let inv_500 = high - r500;
                let inv_618 = high - r618;
                let inv_786 = high - r786;
                if price <= inv_618 && price >= inv_786 {
                    FibZone::Premium
                } else if price <= inv_500 && price > inv_618 {
                    FibZone::Standard
                } else if price <= inv_382 && price > inv_500 {
                    FibZone::Marginal
                } else {
                    FibZone::Invalid
                }
            },
            TrendDirection::Neutral => FibZone::Invalid,
        }
    }

    /// Confirmation on the five-minute chart; not implemented yet, so never
    /// confirms.
    fn check_m5_confirmation(&self, data: &MarketData, direction: TrendDirection) -> (r: bool)
        ensures
            !r,
    {
        false
    }
}

} // verus!
