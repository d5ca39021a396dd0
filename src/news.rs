//! Economic calendar blackouts and the trading session gate.
use vstd::prelude::*;

verus! {

/// Seconds in an hour.
pub const HOUR: i64 = 3600;

/// How strongly an event moves markets.
#[derive(Debug, Clone, Copy, PartialEq, Eq, Structural)]
pub enum ImpactLevel {
    High,
    Medium,
    Low,
}

/// A scheduled economic release; `time` is in Unix seconds.
#[derive(Debug, Clone)]
pub struct NewsEvent {
    pub title: String,
    pub impact: ImpactLevel,
    pub currency: String,
    pub time: i64,
}

/// The high-impact event `e` blacks out the instant `now`.
pub open spec fn blacks_out(e: NewsEvent, before: int, after: int, now: int) -> bool {
    e.impact == ImpactLevel::High && e.time - before <= now <= e.time + after
}

/// Known events, with a blackout window around each high-impact one.
pub struct NewsCalendar {
    events: Vec<NewsEvent>,
    blackout_before: i64,
    blackout_after: i64,
}

impl NewsCalendar {
    pub closed spec fn events(&self) -> Seq<NewsEvent> {
        self.events@
    }

    pub closed spec fn before(&self) -> int {
        self.blackout_before as int
    }

    pub closed spec fn after(&self) -> int {
        self.blackout_after as int
    }

    /// No high-impact event blacks out `now`.
    pub open spec fn safe_at(&self, now: int) -> bool {
        forall|i: int| 0 <= i < self.events().len() ==> !blacks_out(#[trigger] self.events()[i], self.before(), self.after(), now)
    }

    /// An empty calendar blacking out one hour before and two hours after
    /// each high-impact event.
    pub fn new() -> (r: Self)
        ensures
            r.events().len() == 0,
            r.before() == HOUR,
            r.after() == 2 * HOUR,
    {
        NewsCalendar { events: Vec::new(), blackout_before: HOUR, blackout_after: 2 * HOUR }
    }

    /// Adds an event to the calendar.
    pub fn add_event(&mut self, event: NewsEvent)
        ensures
            final(self).events() == old(self).events().push(event),
            final(self).before() == old(self).before(),
            final(self).after() == old(self).after(),
    {
        self.events.push(event);
    }

    /// Trading is safe at `now` unless a high-impact event blacks it out.
    pub fn is_safe_to_trade(&self, now: i64) -> (r: bool)
        ensures
            r == self.safe_at(now as int),
    {
        let mut i: usize = 0;
        while i < self.events.len()
            invariant
                0 <= i <= self.events@.len(),
                forall|j: int| 0 <= j < i ==> !blacks_out(#[trigger] self.events@[j], self.before(), self.after(), now as int),
            decreases self.events@.len() - i,
        {
            let event = &self.events[i];
            if event.impact == ImpactLevel::High {
                let start = event.time as i128 - self.blackout_before as i128;
                let end = event.time as i128 + self.blackout_after as i128;
                if start <= now as i128 && now as i128 <= end {
                    assert(blacks_out(self.events()[i as int], self.before(), self.after(), now as int));
                    return false;
                }
            }
            i = i + 1;
        }
        true
    }

    /// Events from `now` through `hours` hours later, in calendar order.
    pub fn get_upcoming_events(&self, hours: i64, now: i64) -> (r: Vec<&NewsEvent>)
        ensures
            r@.len() <= self.events().len(),
            forall|k: int| 0 <= k < r@.len() ==> {
                &&& now <= (#[trigger] r@[k]).time <= now + hours * HOUR
                &&& self.events().contains(*r@[k])
            },
            forall|j: int| 0 <= j < self.events().len() && now <= (#[trigger] self.events()[j]).time
                <= now + hours * HOUR ==> r@.contains(&self.events()[j]),
    {
        proof {
            assert(-0x8000_0000_0000_0000 * 3600 <= hours * 3600 <= 0x8000_0000_0000_0000 * 3600) by (nonlinear_arith)
                requires
                    -0x8000_0000_0000_0000 <= hours <= 0x8000_0000_0000_0000,
            ;
        }
        let cutoff = now as i128 + hours as i128 * 3600;
        let mut out: Vec<&NewsEvent> = Vec::new();
        let mut i: usize = 0;
        while i < self.events.len()
            invariant
                0 <= i <= self.events@.len(),
                cutoff == now + hours * HOUR,
                out@.len() <= i,
                forall|k: int| 0 <= k < out@.len() ==> {
                    &&& now <= (#[trigger] out@[k]).time <= cutoff
                    &&& self.events@.contains(*out@[k])
                },
                forall|j: int| 0 <= j < i && now <= (#[trigger] self.events@[j]).time <= cutoff
                    ==> out@.contains(&self.events@[j]),
            decreases self.events@.len() - i,
        {
            let event = &self.events[i];
            let ghost old_out = out@;
            if now <= event.time && event.time as i128 <= cutoff {
                out.push(event);
            }
            proof {
                assert(self.events@.contains(self.events@[i as int]));
                assert forall|j: int| 0 <= j < i + 1 && now <= (#[trigger] self.events@[j]).time <= cutoff
                    implies out@.contains(&self.events@[j]) by {
                    if j < i {
                        let k = choose|k: int| 0 <= k < old_out.len() && old_out[k] == &self.events@[j];
                        assert(out@[k] == old_out[k]);
                    } else {
                        assert(out@[out@.len() - 1] == &self.events@[j]);
                    }
                }
            }
            i = i + 1;
        }
        out
    }
}

impl Default for NewsCalendar {
    fn default() -> (r: Self)
        ensures
            r.events().len() == 0,
            r.before() == HOUR,
            r.after() == 2 * HOUR,
    {
        Self::new()
    }
}

/// Weekday of a Unix time in UTC, Monday 0 through Sunday 6.
pub uninterp spec fn weekday_of(secs: int) -> Option<u32>;

/// Relies on chrono's `DateTime::<Utc>::from_timestamp` and
/// `Weekday::num_days_from_monday`: the UTC weekday of the instant, `None`
/// outside the dates chrono can represent.
#[verifier::external_body]
fn utc_weekday(secs: i64) -> (r: Option<u32>)
    ensures
        r == weekday_of(secs as int),
        r matches Some(d) ==> d < 7,
{
    match chrono::DateTime::<chrono::Utc>::from_timestamp(secs, 0) {
        Some(t) => Some(chrono::Datelike::weekday(&t).num_days_from_monday()),
        None => None,
    }
}

/// Saturday or Sunday, counting Monday as 0.
pub open spec fn weekend_day(weekday: u32) -> bool {
    weekday == 5 || weekday == 6
}

/// A known weekday from Monday to Friday.
pub open spec fn open_weekday(d: Option<u32>) -> bool {
    match d {
        Some(w) => !weekend_day(w),
        None => false,
    }
}

pub fn is_weekend(weekday: u32) -> (r: bool)
    ensures
        r == weekend_day(weekday),
{
    weekday == 5 || weekday == 6
}

/// Whether new trades may open at `now`: no news blackout, and a weekday
/// unless weekend trading is enabled. An instant without a known weekday
/// counts as closed.
pub fn trading_allowed(calendar: &NewsCalendar, now: i64, weekend_trading_enabled: bool) -> (r: bool)
    ensures
        r == (calendar.safe_at(now as int) && (weekend_trading_enabled || open_weekday(weekday_of(now as int)))),
{
    if !calendar.is_safe_to_trade(now) {
        return false;
    }
    if weekend_trading_enabled {
        return true;
    }
    match utc_weekday(now) {
        Some(d) => !is_weekend(d),
        None => false,
    }
}

} // verus!
