//! Take-profit ladder and trailing stop.
use vstd::prelude::*;
use crate::fixed::{is_amount, abs, AMOUNT_LIMIT, SCALE};
use crate::types::TrendDirection;
use crate::TradingError;

verus! {

/// One partial exit.
#[derive(Debug, Clone, Copy)]
pub struct TPLevel {
    pub price: i64,
    /// Share of the position closed here, fixed-point percent.
    pub size_percent: i64,
    pub hit: bool,
}

/// A stop that follows price once enabled.
#[derive(Debug, Clone, Copy)]
pub struct TrailingStop {
    pub enabled: bool,
    pub distance: i64,
    pub current_level: i64,
}

/// The three exits of a position and its trailing stop.
#[derive(Debug, Clone, Copy)]
pub struct TakeProfitLevels {
    pub tp1: TPLevel,
    pub tp2: TPLevel,
    pub tp3: TPLevel,
    pub trailing_stop: TrailingStop,
}

/// Price at `num / den` stop distances from the entry, on the profit side.
pub open spec fn tp_price(entry: int, distance: int, num: int, den: int, direction: TrendDirection) -> int {
    if direction == TrendDirection::Long {
        entry + (distance * num) / den
    } else {
        entry - (distance * num) / den
    }
}

/// The ladder that `calculate_targets` builds for a Long or Short trade:
/// exits at 1.5, 2.5 and 4 stop distances taking 40%, 40% and 20%, and a
/// disabled trailing stop 1.5 ATR wide resting on the stop loss.
pub open spec fn targets_spec(entry: int, stop_loss: int, atr: int, direction: TrendDirection) -> TakeProfitLevels {
    let d = abs(entry - stop_loss);
    TakeProfitLevels {
        tp1: TPLevel { price: tp_price(entry, d, 3, 2, direction) as i64, size_percent: (40 * SCALE) as i64, hit: false },
        tp2: TPLevel { price: tp_price(entry, d, 5, 2, direction) as i64, size_percent: (40 * SCALE) as i64, hit: false },
        tp3: TPLevel { price: tp_price(entry, d, 4, 1, direction) as i64, size_percent: (20 * SCALE) as i64, hit: false },
        trailing_stop: TrailingStop {
            enabled: false,
            distance: ((atr * 3) / 2) as i64,
            current_level: stop_loss as i64,
        },
    }
}

/// Distance of a price from the entry in the trade's favour.
pub open spec fn gain_distance(entry: int, price: int, direction: TrendDirection) -> int {
    if direction == TrendDirection::Long {
        price - entry
    } else {
        entry - price
    }
}

/// The levels after one trailing update at `price`: once trailing is
/// enabled and the first target was hit, the stop moves to `price` less
/// (Long) or plus (Short) the trailing distance when that is in the
/// trade's favour; nothing else changes.
pub open spec fn trail_spec(levels: TakeProfitLevels, price: int, direction: TrendDirection) -> TakeProfitLevels {
    let ts = levels.trailing_stop;
    if !ts.enabled || !levels.tp1.hit {
        levels
    } else if direction == TrendDirection::Long && price - ts.distance > ts.current_level {
        TakeProfitLevels {
            trailing_stop: TrailingStop { current_level: (price - ts.distance) as i64, ..ts },
            ..levels
        }
    } else if direction == TrendDirection::Short && price + ts.distance < ts.current_level {
        TakeProfitLevels {
            trailing_stop: TrailingStop { current_level: (price + ts.distance) as i64, ..ts },
            ..levels
        }
    } else {
        levels
    }
}

/// The levels after trailing updates at each of `prices` in turn.
pub open spec fn trail_all(levels: TakeProfitLevels, prices: Seq<i64>, direction: TrendDirection) -> TakeProfitLevels
    decreases prices.len(),
{
    if prices.len() == 0 {
        levels
    } else {
        trail_spec(trail_all(levels, prices.drop_last(), direction), prices.last() as int, direction)
    }
}

/// Trailing updates change the stop level alone.
pub proof fn lemma_trail_keeps_rest(levels: TakeProfitLevels, prices: Seq<i64>, direction: TrendDirection)
    ensures
        trail_all(levels, prices, direction).trailing_stop.distance == levels.trailing_stop.distance,
        trail_all(levels, prices, direction).trailing_stop.enabled == levels.trailing_stop.enabled,
        trail_all(levels, prices, direction).tp1 == levels.tp1,
        trail_all(levels, prices, direction).tp2 == levels.tp2,
        trail_all(levels, prices, direction).tp3 == levels.tp3,
    decreases prices.len(),
{
    if prices.len() > 0 {
        lemma_trail_keeps_rest(levels, prices.drop_last(), direction);
    }
}

/// Over any sequence of trailing updates, whatever the prices do, a Long
/// stop never moves down and a Short stop never moves up: the level after
/// the first `i` updates is on the losing side of the level after the
/// first `j >= i`.
pub proof fn lemma_trailing_monotone(
    levels: TakeProfitLevels,
    prices: Seq<i64>,
    direction: TrendDirection,
    i: int,
    j: int,
)
    requires
        0 <= i <= j <= prices.len(),
        forall|k: int| 0 <= k < prices.len() ==> is_amount(#[trigger] prices[k] as int),
        -2 * AMOUNT_LIMIT <= levels.trailing_stop.distance <= 2 * AMOUNT_LIMIT,
    ensures
        direction == TrendDirection::Long ==> trail_all(levels, prices.take(i), direction).trailing_stop.current_level
            <= trail_all(levels, prices.take(j), direction).trailing_stop.current_level,
        direction == TrendDirection::Short ==> trail_all(levels, prices.take(i), direction).trailing_stop.current_level
            >= trail_all(levels, prices.take(j), direction).trailing_stop.current_level,
    decreases j - i,
{
    if i < j {
        lemma_trailing_monotone(levels, prices, direction, i, j - 1);
        assert(prices.take(j).drop_last() =~= prices.take(j - 1));
        assert(prices.take(j).last() == prices[j - 1]);
        lemma_trail_keeps_rest(levels, prices.take(j - 1), direction);
    }
}

/// Builds take-profit ladders and moves trailing stops.
pub struct DynamicTPManager {
    trailing_enabled: bool,
}

impl DynamicTPManager {
    /// Whether positions it manages may trail their stop.
    pub closed spec fn trails(&self) -> bool {
        self.trailing_enabled
    }

    pub fn new() -> (r: Self)
        ensures
            r.trails(),
    {
        DynamicTPManager { trailing_enabled: true }
    }

    /// The exits and trailing stop of a new position. Neutral direction
    /// and a non-positive ATR are invalid input.
    pub fn calculate_targets(
        &self,
        entry_price: i64,
        stop_loss: i64,
        atr: i64,
        direction: TrendDirection,
    ) -> (r: Result<TakeProfitLevels, TradingError>)
        requires
            is_amount(entry_price as int),
            is_amount(stop_loss as int),
            is_amount(atr as int),
        ensures
            r.is_err() <==> (direction == TrendDirection::Neutral || atr <= 0),
            r is Err ==> r == Err::<TakeProfitLevels, TradingError>(TradingError::InvalidInput),
            r matches Ok(l) ==> l == targets_spec(entry_price as int, stop_loss as int, atr as int, direction),
            r matches Ok(l) ==> entry_price != stop_loss ==> {
                &&& 0 < gain_distance(entry_price as int, l.tp1.price as int, direction)
                &&& gain_distance(entry_price as int, l.tp1.price as int, direction)
                    < gain_distance(entry_price as int, l.tp2.price as int, direction)
                &&& gain_distance(entry_price as int, l.tp2.price as int, direction)
                    < gain_distance(entry_price as int, l.tp3.price as int, direction)
            },
    {
        if direction == TrendDirection::Neutral || atr <= 0 {
            return Err(TradingError::InvalidInput);
        }
        let sl_distance = if entry_price >= stop_loss {
            entry_price - stop_loss
        } else {
            stop_loss - entry_price
        };
        let tp1 = self.calculate_tp(entry_price, sl_distance, 3, 2, direction);
        let tp2 = self.calculate_tp(entry_price, sl_distance, 5, 2, direction);
        let tp3 = self.calculate_tp(entry_price, sl_distance, 4, 1, direction);
        let trailing_distance = atr * 3 / 2;
        Ok(TakeProfitLevels {
            tp1: TPLevel { price: tp1, size_percent: 40 * SCALE, hit: false },
            tp2: TPLevel { price: tp2, size_percent: 40 * SCALE, hit: false },
            tp3: TPLevel { price: tp3, size_percent: 20 * SCALE, hit: false },
            trailing_stop: TrailingStop {
                enabled: false,
                distance: trailing_distance,
                current_level: stop_loss,
            },
        })
    }

    /// Entry moved `num / den` stop distances toward profit.
    fn calculate_tp(&self, entry: i64, sl_distance: i64, num: i64, den: i64, direction: TrendDirection) -> (r: i64)
        requires
            is_amount(entry as int),
            0 <= sl_distance <= 2 * AMOUNT_LIMIT,
            1 <= den <= num <= 5,
            direction != TrendDirection::Neutral,
        ensures
            r == tp_price(entry as int, sl_distance as int, num as int, den as int, direction),
    {
        proof {
            assert(0 <= sl_distance * num <= 10 * AMOUNT_LIMIT) by (nonlinear_arith)
                requires
                    0 <= sl_distance <= 2 * AMOUNT_LIMIT,
                    1 <= num <= 5,
            ;
            vstd::arithmetic::div_mod::lemma_div_is_ordered(sl_distance * num, 10 * AMOUNT_LIMIT, den as int);
            vstd::arithmetic::div_mod::lemma_div_pos_is_pos(sl_distance * num, den as int);
            vstd::arithmetic::div_mod::lemma_div_is_ordered_by_denominator(10 * AMOUNT_LIMIT, 1, den as int);
        }
        let target_distance = sl_distance * num / den;
        match direction {
            TrendDirection::Long => entry + target_distance,
            _ => entry - target_distance,
        }
    }

    /// Ratchets the trailing stop toward `current_price`: only once trailing
    /// is enabled and the first target was hit, and only in the trade's
    /// favour.
    pub fn update_trailing_stop(
        &self,
        levels: &mut TakeProfitLevels,
        current_price: i64,
        direction: TrendDirection,
    )
        requires
            is_amount(current_price as int),
            -2 * AMOUNT_LIMIT <= old(levels).trailing_stop.distance <= 2 * AMOUNT_LIMIT,
        ensures
            *final(levels) == trail_spec(*old(levels), current_price as int, direction),
            direction == TrendDirection::Long ==> final(levels).trailing_stop.current_level
                >= old(levels).trailing_stop.current_level,
            direction == TrendDirection::Short ==> final(levels).trailing_stop.current_level
                <= old(levels).trailing_stop.current_level,
    {
        if !levels.trailing_stop.enabled || !levels.tp1.hit {
            return;
        }
        match direction {
            TrendDirection::Long => {
                let candidate = current_price - levels.trailing_stop.distance;
                if candidate > levels.trailing_stop.current_level {
                    levels.trailing_stop.current_level = candidate;
                }
            },
            TrendDirection::Short => {
                let candidate = current_price + levels.trailing_stop.distance;
                if candidate < levels.trailing_stop.current_level {
                    levels.trailing_stop.current_level = candidate;
                }
            },
            TrendDirection::Neutral => {},
        }
    }
}

impl Default for DynamicTPManager {
    fn default() -> (r: Self)
        ensures
            r.trails(),
    {
        Self::new()
    }
}

} // verus!
