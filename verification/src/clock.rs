use vstd::prelude::*;

use std::time::{Duration, SystemTime};

use chrono::{Datelike, TimeZone};

use crate::cadance::Cadance;
use crate::calendar::{days_from_civil, is_calendar_day, weekday_from_monday};

verus! {

/// A reading of the local clock: the local calendar date, the day of the
/// week, and the instant itself as seconds since the Unix epoch and the
/// nanoseconds past that second.
#[derive(Clone, Copy, Debug, PartialEq, Eq, Structural)]
pub struct Moment {
    pub year: i32,
    pub month: u32,
    pub day: u32,
    /// 0 on a Monday, up to 6 on a Sunday.
    pub days_from_monday: u32,
    pub timestamp: i64,
    pub subsec_nanos: u32,
}

impl Moment {
    /// The day number (days since 1970-01-01) of the reading's local date.
    pub open spec fn date_number(self) -> int {
        days_from_civil(self.year as int, self.month as int, self.day as int)
    }

    /// What every reading of the local clock satisfies: its date is a day of
    /// the calendar, its weekday is that date's, its nanoseconds are below a
    /// second, and the instant falls on that local date under an offset from
    /// UTC of less than a day.
    pub open spec fn wf(self) -> bool {
        &&& is_calendar_day(self.year as int, self.month as int, self.day as int)
        &&& self.days_from_monday == weekday_from_monday(self.date_number())
        &&& self.subsec_nanos < 1_000_000_000
        &&& falls_on_local_day(self.timestamp as int, self.date_number())
    }
}

/// Whether the instant `timestamp` (seconds since the epoch) shows, on a
/// clock whose offset from UTC is less than a day, some time of the local day
/// numbered `date`.
pub open spec fn falls_on_local_day(timestamp: int, date: int) -> bool {
    86_400 * date - 86_400 < timestamp < 86_400 * date + 2 * 86_400
}

/// Whether the instant `timestamp` is the start (00:00:00) of the local day
/// numbered `date`, on a clock whose offset from UTC is less than a day.
pub open spec fn can_be_midnight_of(timestamp: int, date: int) -> bool {
    86_400 * date - 86_400 < timestamp < 86_400 * date + 86_400
}

/// The whole minutes in a span of `nanos` nanoseconds, rounded toward zero.
pub open spec fn whole_minutes(nanos: int) -> int {
    if nanos >= 0 {
        nanos / 60_000_000_000
    } else {
        -((-nanos) / 60_000_000_000)
    }
}

/// The signed span from `now` to the instant `start` (whole seconds since the
/// epoch), in whole minutes rounded toward zero: negative when `start` lies
/// before `now`.
pub open spec fn minutes_from(now: Moment, start: int) -> int {
    whole_minutes((start - now.timestamp) * 1_000_000_000 - now.subsec_nanos)
}

impl Cadance {
    /// The local date whose midnight anchors the period of this cadence that
    /// holds `now`: today for a daily or weekly habit, the first of the month
    /// for a monthly one.
    pub open spec fn anchor_day(self, now: Moment) -> (i32, u32, u32) {
        match self {
            Cadance::Monthly => (now.year, now.month, 1u32),
            _ => (now.year, now.month, now.day),
        }
    }

    /// The start of the period holding `now`, given the instant of the
    /// anchor day's local midnight: a week starts as many whole days (of
    /// 86400 seconds) before today's midnight as today is past Monday.
    pub open spec fn period_start(self, now: Moment, midnight: int) -> int {
        match self {
            Cadance::Weekly => midnight - 86_400 * now.days_from_monday,
            _ => midnight,
        }
    }

    /// The signed minutes from `now` to the start of its period, when the
    /// anchor day's local midnight is a single instant; `None` when the local
    /// clock never shows that midnight, or shows it twice.
    pub open spec fn offset_of_start(self, now: Moment, midnight: Option<i64>) -> Option<int> {
        match midnight {
            Some(m) => Some(minutes_from(now, self.period_start(now, m as int))),
            None => None,
        }
    }

    /// The local date whose midnight anchors the current period (see
    /// `anchor_day`).
    pub fn period_anchor(&self, now: &Moment) -> (day: (i32, u32, u32))
        ensures
            day == self.anchor_day(*now),
            *self == Cadance::Monthly ==> day == (now.year, now.month, 1u32),
            *self != Cadance::Monthly ==> day == (now.year, now.month, now.day),
    {
        match self {
            Cadance::Monthly => (now.year, now.month, 1),
            _ => (now.year, now.month, now.day),
        }
    }

    /// The signed whole minutes from `now` to the start of the current period
    /// (negative once the period has begun), given what the local time zone
    /// made of the anchor day's midnight. This is chrono's
    /// `(start - now).num_minutes()`, with a week's start taken as
    /// `midnight - TimeDelta::days(days_from_monday)`: both are written out
    /// here as the arithmetic on instants that chrono documents (a
    /// `TimeDelta` of whole days is 86400 seconds each, `num_minutes` rounds
    /// toward zero).
    pub fn start_offset(&self, now: &Moment, midnight: Option<i64>) -> (offset: Option<i64>)
        ensures
            offset is Some <==> midnight is Some,
            offset matches Some(m) ==> m == self.offset_of_start(*now, midnight).unwrap(),
            offset matches Some(o) ==> {
                let days_back: int = if *self == Cadance::Weekly {
                    now.days_from_monday as int
                } else {
                    0
                };
                let span: int = (midnight.unwrap() - 86_400 * days_back - now.timestamp)
                    * 1_000_000_000 - now.subsec_nanos;
                &&& span >= 0 ==> 0 <= o && o * 60_000_000_000 <= span < (o + 1) * 60_000_000_000
                &&& span < 0 ==> o <= 0 && (o - 1) * 60_000_000_000 < span <= o * 60_000_000_000
            },
    {
        match midnight {
            None => None,
            Some(m) => {
                let days_back: i128 = match self {
                    Cadance::Weekly => now.days_from_monday as i128,
                    _ => 0,
                };
                let start: i128 = m as i128 - 86_400 * days_back;
                assert(start == self.period_start(*now, m as int));
                let span: i128 = (start - now.timestamp as i128) * 1_000_000_000
                    - now.subsec_nanos as i128;
                let minutes: i128 = if span >= 0 {
                    span / 60_000_000_000
                } else {
                    -((-span) / 60_000_000_000)
                };
                assert(minutes == whole_minutes(span as int));
                proof {
                    lemma_whole_minutes_bound(span as int);
                    lemma_whole_minutes_rounds_toward_zero(span as int);
                }
                Some(minutes as i64)
            },
        }
    }
}

/// The day whose midnight anchors a period is today for a daily or weekly
/// habit, and the first of the current month for a monthly one.
pub proof fn lemma_anchor_days(now: Moment)
    ensures
        Cadance::Daily.anchor_day(now) == (now.year, now.month, now.day),
        Cadance::Weekly.anchor_day(now) == (now.year, now.month, now.day),
        Cadance::Monthly.anchor_day(now) == (now.year, now.month, 1u32),
{
}

/// A day and a month start at their anchor day's midnight; a week starts
/// whole days of 86400 seconds before today's midnight, one for each day that
/// today is past Monday (six on a Sunday).
pub proof fn lemma_period_starts(now: Moment, midnight: int)
    ensures
        Cadance::Daily.period_start(now, midnight) == midnight,
        Cadance::Monthly.period_start(now, midnight) == midnight,
        Cadance::Weekly.period_start(now, midnight) == midnight - 86_400 * now.days_from_monday,
{
}

/// Whole minutes round a span toward zero: they never exceed the span in
/// size, and fall short of it by less than a minute, with the span's sign.
pub proof fn lemma_whole_minutes_rounds_toward_zero(nanos: int)
    ensures
        nanos >= 0 ==> 0 <= whole_minutes(nanos) && whole_minutes(nanos) * 60_000_000_000
            <= nanos < (whole_minutes(nanos) + 1) * 60_000_000_000,
        nanos < 0 ==> whole_minutes(nanos) <= 0 && (whole_minutes(nanos) - 1) * 60_000_000_000
            < nanos <= whole_minutes(nanos) * 60_000_000_000,
{
    if nanos >= 0 {
        assert(0 <= nanos / 60_000_000_000 && (nanos / 60_000_000_000) * 60_000_000_000 <= nanos
            < (nanos / 60_000_000_000 + 1) * 60_000_000_000) by (nonlinear_arith)
            requires
                nanos >= 0,
        ;
    } else {
        let p = -nanos;
        assert(0 <= p / 60_000_000_000 && (p / 60_000_000_000) * 60_000_000_000 <= p
            < (p / 60_000_000_000 + 1) * 60_000_000_000) by (nonlinear_arith)
            requires
                p > 0,
        ;
    }
}

/// Once today has begun, the week has run exactly as many whole days longer
/// than the day as today is past Monday: the weekly offset is the daily one
/// less 1440 minutes for each of those days.
pub proof fn lemma_week_offset_from_day_offset(now: Moment, midnight: i64)
    requires
        midnight <= now.timestamp,
        now.subsec_nanos < 1_000_000_000,
    ensures
        Cadance::Weekly.offset_of_start(now, Some(midnight)).unwrap()
            == Cadance::Daily.offset_of_start(now, Some(midnight)).unwrap() - 1440
            * now.days_from_monday,
{
    let day_span = (midnight - now.timestamp) * 1_000_000_000 - now.subsec_nanos;
    let k = now.days_from_monday as int;
    let week_span = (midnight - 86_400 * k - now.timestamp) * 1_000_000_000 - now.subsec_nanos;
    assert(day_span <= 0) by (nonlinear_arith)
        requires
            midnight <= now.timestamp,
            day_span == (midnight - now.timestamp) * 1_000_000_000 - now.subsec_nanos,
            now.subsec_nanos >= 0,
    ;
    assert(week_span == day_span - k * 1440 * 60_000_000_000);
    let p = -day_span;
    assert((p + k * 1440 * 60_000_000_000) / 60_000_000_000 == p / 60_000_000_000 + k * 1440)
        by (nonlinear_arith)
        requires
            p >= 0,
            k >= 0,
    ;
    if week_span == 0 {
        assert(p == 0 && k == 0) by (nonlinear_arith)
            requires
                p >= 0,
                k >= 0,
                p + k * 1440 * 60_000_000_000 == 0,
        ;
    }
}

/// `std::time::SystemTime`, declared so that a reading of the system clock
/// can be handed from one call to the next.
#[verifier::external_type_specification]
#[verifier::external_body]
pub struct ExSystemTime(SystemTime);

/// The system clock, by std's `SystemTime::now`. Nothing is claimed of the
/// reading: it is whatever the clock shows.
#[verifier::external_body]
fn system_clock() -> (now: SystemTime)
{
    SystemTime::now()
}

/// The time elapsed from the Unix epoch to `now`, by std's
/// `SystemTime::duration_since(UNIX_EPOCH)`; `None` when `now` lies before the
/// epoch, where std returns an error. Nothing more is claimed: the span
/// depends on the reading, which Verus cannot see into.
#[verifier::external_body]
fn since_epoch(now: &SystemTime) -> (span: Option<Duration>)
{
    match now.duration_since(std::time::UNIX_EPOCH) {
        Ok(d) => Some(d),
        Err(_) => None,
    }
}

/// The whole seconds of `span`, by std's `Duration::as_secs`. Not stated:
/// which number, since Verus cannot see into a `Duration`.
#[verifier::external_body]
fn whole_seconds(span: &Duration) -> (secs: u64)
{
    span.as_secs()
}

/// The nanoseconds of `span` past its whole seconds, by std's
/// `Duration::subsec_nanos`, which std documents as always less than one
/// billion; that bound is what is claimed.
#[verifier::external_body]
fn nanos_past_second(span: &Duration) -> (nanos: u32)
    ensures
        nanos < 1_000_000_000,
{
    span.subsec_nanos()
}

/// The local reading of the instant `secs` seconds and `nanos` nanoseconds
/// after the epoch, by chrono's `TimeZone::timestamp_opt` on `Local` (which
/// maps a valid UTC instant to a single local time), then the local date
/// (`Datelike::year`, `month`, `day`), the weekday counted from Monday
/// (`Weekday::num_days_from_monday`) and the instant (`DateTime::timestamp`,
/// `timestamp_subsec_nanos`). `None` when chrono cannot represent the instant.
/// Claimed of a reading: it is the instant asked for; its date is a day of the
/// proleptic Gregorian calendar, and its weekday that date's; and the local
/// date is the UTC instant shifted by the zone's offset, which chrono keeps
/// strictly within a day (`FixedOffset::east_opt`), so the instant falls on
/// that local date within a day's offset. Which offset the machine's time
/// zone gives is not stated. Chrono panics inside this call when it cannot
/// evaluate the machine's time-zone rules for the instant ("unable to select
/// local time type"); no argument rules that out.
#[verifier::external_body]
fn local_reading(secs: i64, nanos: u32) -> (reading: Option<Moment>)
    requires
        nanos < 1_000_000_000,
    ensures
        reading matches Some(now) ==> {
            &&& now.timestamp == secs
            &&& now.subsec_nanos == nanos
            &&& now.wf()
        },
{
    match chrono::Local.timestamp_opt(secs, nanos) {
        chrono::MappedLocalTime::Single(t) => Some(Moment {
            year: t.year(),
            month: t.month(),
            day: t.day(),
            days_from_monday: t.weekday().num_days_from_monday(),
            timestamp: t.timestamp(),
            subsec_nanos: t.timestamp_subsec_nanos(),
        }),
        _ => None,
    }
}

/// Reads the local clock: the system clock's time since the epoch, read in
/// the local time zone. `None` when the system clock lies before the epoch or
/// beyond what an `i64` of seconds or chrono can hold, where chrono's own
/// `Local::now` would panic.
fn local_now() -> (now: Option<Moment>)
    ensures
        now matches Some(m) ==> m.wf(),
{
    let clock = system_clock();
    match since_epoch(&clock) {
        None => None,
        Some(span) => {
            let secs = whole_seconds(&span);
            let nanos = nanos_past_second(&span);
            if secs > i64::MAX as u64 {
                None
            } else {
                local_reading(secs as i64, nanos)
            }
        },
    }
}

/// The instant (seconds since the epoch) of local midnight at the start of the
/// given day, by chrono's `TimeZone::with_ymd_and_hms` on `Local` at 00:00:00,
/// kept only when the local clock shows that time exactly once
/// (`MappedLocalTime::single`), then `DateTime::timestamp`. Claimed: a month
/// and day that name no day of the calendar give `None`, as chrono documents
/// for invalid input; and an instant that comes back is the local day's
/// 00:00:00 less the zone's offset, which chrono keeps strictly within a day
/// (`FixedOffset::east_opt`, `TimeZone::from_local_datetime`). Which offset,
/// and whether the zone skips or repeats that midnight, depends on the
/// machine's time zone and is not stated. Chrono panics inside this call when
/// it cannot evaluate the machine's time-zone rules ("unable to select local
/// time type"); no argument rules that out.
#[verifier::external_body]
fn local_midnight(year: i32, month: u32, day: u32) -> (midnight: Option<i64>)
    ensures
        !is_calendar_day(year as int, month as int, day as int) ==> midnight is None,
        midnight matches Some(m) ==> can_be_midnight_of(
            m as int,
            days_from_civil(year as int, month as int, day as int),
        ),
{
    match chrono::Local.with_ymd_and_hms(year, month, day, 0, 0, 0).single() {
        Some(t) => Some(t.timestamp()),
        None => None,
    }
}

impl Cadance {
    /// Whether `offset` is what `start_offset` gives for the clock reading
    /// `now` and a midnight that the local zone can give for the period's
    /// anchor day.
    pub open spec fn is_offset_from(self, now: Moment, midnight: i64, offset: i64) -> bool {
        let (y, m, d) = self.anchor_day(now);
        &&& now.wf()
        &&& can_be_midnight_of(midnight as int, days_from_civil(y as int, m as int, d as int))
        &&& offset == self.offset_of_start(now, Some(midnight)).unwrap()
    }

    /// The signed whole minutes from the reading `now` to the start of its
    /// period of this cadence: the local time zone is asked for the midnight of
    /// the anchor day (today, or the 1st of the month for a monthly habit),
    /// and a week goes back from there one whole day per day past Monday.
    /// `None` when the zone skips or repeats that midnight.
    pub fn start_offset_at(&self, now: &Moment) -> (offset: Option<i64>)
        ensures
            offset matches Some(o) ==> exists|m: i64|
                #![trigger can_be_midnight_of(m as int, days_from_civil(now.year as int, now.month as int, 1int))]
                #![trigger can_be_midnight_of(m as int, days_from_civil(now.year as int, now.month as int, now.day as int))]
                {
                    let days_back: int = if *self == Cadance::Weekly {
                        now.days_from_monday as int
                    } else {
                        0
                    };
                    let span: int = (m - 86_400 * days_back - now.timestamp) * 1_000_000_000
                        - now.subsec_nanos;
                    &&& *self == Cadance::Monthly ==> can_be_midnight_of(
                        m as int,
                        days_from_civil(now.year as int, now.month as int, 1int),
                    )
                    &&& *self != Cadance::Monthly ==> can_be_midnight_of(
                        m as int,
                        days_from_civil(now.year as int, now.month as int, now.day as int),
                    )
                    &&& span >= 0 ==> 0 <= o && o * 60_000_000_000 <= span < (o + 1)
                        * 60_000_000_000
                    &&& span < 0 ==> o <= 0 && (o - 1) * 60_000_000_000 < span <= o
                        * 60_000_000_000
                },
            now.wf() ==> (offset matches Some(o) ==> {
                &&& exists|m: i64| #[trigger] self.is_offset_from(*now, m, o)
                &&& -(self.period_length() + 2880) <= o < 2880
            }),
    {
        let (year, month, day) = self.period_anchor(now);
        match local_midnight(year, month, day) {
            None => None,
            Some(m) => {
                let offset = self.start_offset(now, Some(m));
                match offset {
                    None => None,
                    Some(o) => {
                        proof {
                            assert(can_be_midnight_of(
                                m as int,
                                days_from_civil(year as int, month as int, day as int),
                            ));
                            assert(can_be_midnight_of(
                                m as int,
                                days_from_civil(now.year as int, now.month as int, 1int),
                            ) || can_be_midnight_of(
                                m as int,
                                days_from_civil(now.year as int, now.month as int, now.day as int),
                            ));
                            if now.wf() {
                                assert(self.is_offset_from(*now, m, o));
                                lemma_offset_bounds(*self, *now, m, o);
                            }
                        }
                        Some(o)
                    },
                }
            },
        }
    }

    /// The signed whole minutes from now to the start of the current period of
    /// this cadence, read from the local clock and time zone (see
    /// `start_offset_at`): some reading of the clock, the midnight the zone
    /// gives for that reading's anchor day, and the offset between them.
    /// `None` when the clock cannot be read as a local time, or the local time
    /// zone skips or repeats the midnight that starts the period. Because the
    /// clock's offset from UTC is less than a day, the start lies at most two
    /// days of minutes after now, and at most a period and two days before.
    /// Which reading the clock gave is not stated: it depends on the time.
    pub fn start_offset_now(&self) -> (offset: Option<i64>)
        ensures
            offset matches Some(o) ==> {
                &&& exists|now: Moment, midnight: i64| #[trigger] self.is_offset_from(now, midnight, o)
                &&& -(self.period_length() + 2880) <= o < 2880
            },
            offset matches Some(o) ==> exists|now: Moment, m: i64|
                #![trigger can_be_midnight_of(m as int, days_from_civil(now.year as int, now.month as int, 1int))]
                #![trigger can_be_midnight_of(m as int, days_from_civil(now.year as int, now.month as int, now.day as int))]
                {
                    let days_back: int = if *self == Cadance::Weekly {
                        now.days_from_monday as int
                    } else {
                        0
                    };
                    let span: int = (m - 86_400 * days_back - now.timestamp) * 1_000_000_000
                        - now.subsec_nanos;
                    &&& now.wf()
                    &&& *self == Cadance::Monthly ==> can_be_midnight_of(
                        m as int,
                        days_from_civil(now.year as int, now.month as int, 1int),
                    )
                    &&& *self != Cadance::Monthly ==> can_be_midnight_of(
                        m as int,
                        days_from_civil(now.year as int, now.month as int, now.day as int),
                    )
                    &&& span >= 0 ==> 0 <= o && o * 60_000_000_000 <= span < (o + 1)
                        * 60_000_000_000
                    &&& span < 0 ==> o <= 0 && (o - 1) * 60_000_000_000 < span <= o
                        * 60_000_000_000
                },
    {
        match local_now() {
            None => None,
            Some(now) => {
                let offset = self.start_offset_at(&now);
                proof {
                    if let Some(o) = offset {
                        let m = choose|m: i64| #[trigger] self.is_offset_from(now, m, o);
                        assert(self.is_offset_from(now, m, o));
                    }
                }
                offset
            },
        }
    }
}

/// For a well-formed reading and a midnight that the zone can give for the
/// period's anchor day, the offset to the period's start lies between minus a
/// period and two days, and plus two days (exclusive).
proof fn lemma_offset_bounds(c: Cadance, now: Moment, midnight: i64, offset: i64)
    requires
        c.is_offset_from(now, midnight, offset),
    ensures
        -(c.period_length() + 2880) <= offset < 2880,
{
    let date = now.date_number();
    let first = days_from_civil(now.year as int, now.month as int, 1);
    crate::calendar::lemma_days_within_month(now.year as int, now.month as int, now.day as int);
    let start = c.period_start(now, midnight as int);
    let diff = start - now.timestamp;
    assert(-(c.period_length() + 2880) * 60 < diff < 2880 * 60) by {
        match c {
            Cadance::Monthly => {
                assert(first == date - (now.day - 1));
            },
            _ => {},
        }
    }
    lemma_whole_minutes_range(diff, now.subsec_nanos as int, c.period_length() + 2880, 2880);
}

/// A span of `diff` whole seconds less `nanos` nanoseconds (under a second),
/// strictly within `-lo` and `hi` minutes, counts at least `-lo` and fewer
/// than `hi` whole minutes.
proof fn lemma_whole_minutes_range(diff: int, nanos: int, lo: int, hi: int)
    requires
        0 <= nanos < 1_000_000_000,
        -lo * 60 < diff < hi * 60,
        lo > 0,
        hi > 0,
    ensures
        -lo <= whole_minutes(diff * 1_000_000_000 - nanos) < hi,
{
    let span = diff * 1_000_000_000 - nanos;
    assert(-lo * 60_000_000_000 < span < hi * 60_000_000_000) by (nonlinear_arith)
        requires
            0 <= nanos < 1_000_000_000,
            -lo * 60 + 1 <= diff <= hi * 60 - 1,
            span == diff * 1_000_000_000 - nanos,
    ;
    if span >= 0 {
        assert(span / 60_000_000_000 < hi) by (nonlinear_arith)
            requires
                0 <= span < hi * 60_000_000_000,
        ;
    } else {
        assert((-span) / 60_000_000_000 <= lo) by (nonlinear_arith)
            requires
                0 < -span < lo * 60_000_000_000,
        ;
    }
}

/// While `now` lies within the period that starts at `period_start` and lasts
/// the cadence's period length, the offset to the start is between minus one
/// period (exclusive) and zero: the fraction of the period gone is less than a
/// whole period.
pub proof fn lemma_offset_within_period(c: Cadance, now: Moment, midnight: i64)
    requires
        now.wf(),
        c.period_start(now, midnight as int) <= now.timestamp,
        now.timestamp < c.period_start(now, midnight as int) + 60 * c.period_length(),
    ensures
        -c.period_length() < c.offset_of_start(now, Some(midnight)).unwrap() <= 0,
{
    let start = c.period_start(now, midnight as int);
    let span = (start - now.timestamp) * 1_000_000_000 - now.subsec_nanos;
    let len = c.period_length();
    assert(c.offset_of_start(now, Some(midnight)).unwrap() == whole_minutes(span));
    assert(span <= 0) by (nonlinear_arith)
        requires
            start - now.timestamp <= 0,
            span == (start - now.timestamp) * 1_000_000_000 - now.subsec_nanos,
            now.subsec_nanos >= 0,
    ;
    assert(-span < len * 60_000_000_000) by (nonlinear_arith)
        requires
            now.timestamp - start < 60 * len,
            now.timestamp - start >= 0,
            span == (start - now.timestamp) * 1_000_000_000 - now.subsec_nanos,
            now.subsec_nanos < 1_000_000_000,
    ;
    assert((-span) / 60_000_000_000 < len) by (nonlinear_arith)
        requires
            0 <= -span < len * 60_000_000_000,
    ;
}

/// The whole minutes of any span between two instants given as `i64`
/// timestamps fit an `i64`.
proof fn lemma_whole_minutes_bound(span: int)
    requires
        -0x2_0000_0000_0000_0000 * 1_000_000_000 <= span
            <= 0x2_0000_0000_0000_0000 * 1_000_000_000,
    ensures
        i64::MIN <= whole_minutes(span) <= i64::MAX,
{
    assert(0x2_0000_0000_0000_0000int * 1_000_000_000 < i64::MAX * 60_000_000_000);
    if span >= 0 {
        assert(span / 60_000_000_000 <= i64::MAX) by (nonlinear_arith)
            requires
                0 <= span <= i64::MAX * 60_000_000_000,
        ;
    } else {
        assert((-span) / 60_000_000_000 <= i64::MAX) by (nonlinear_arith)
            requires
                0 < -span <= i64::MAX * 60_000_000_000,
        ;
    }
}

} // verus!
