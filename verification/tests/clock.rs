use shared::cadance::Cadance;
use shared::clock::Moment;

// 2024-03-13 (a Wednesday) 10:30:15.5 UTC.
fn wednesday_morning() -> Moment {
    Moment {
        year: 2024,
        month: 3,
        day: 13,
        days_from_monday: 2,
        timestamp: 1_710_325_815,
        subsec_nanos: 500_000_000,
    }
}

const MIDNIGHT_13TH: i64 = 1_710_288_000;
const MIDNIGHT_1ST: i64 = 1_709_251_200;

#[test]
fn anchor_is_today_or_first_of_month() {
    let now = wednesday_morning();
    assert_eq!(Cadance::Daily.period_anchor(&now), (2024, 3, 13));
    assert_eq!(Cadance::Weekly.period_anchor(&now), (2024, 3, 13));
    assert_eq!(Cadance::Monthly.period_anchor(&now), (2024, 3, 1));
}

#[test]
fn daily_offset_counts_minutes_since_midnight() {
    let now = wednesday_morning();
    // 10 h 30 min 15.5 s after midnight: 630 whole minutes, negative.
    assert_eq!(Cadance::Daily.start_offset(&now, Some(MIDNIGHT_13TH)), Some(-630));
}

#[test]
fn weekly_offset_goes_back_to_monday() {
    let now = wednesday_morning();
    // Two days and 630 minutes since Monday's midnight.
    assert_eq!(Cadance::Weekly.start_offset(&now, Some(MIDNIGHT_13TH)), Some(-(2 * 1440 + 630)));
}

#[test]
fn monthly_offset_counts_from_the_first() {
    let now = wednesday_morning();
    assert_eq!(Cadance::Monthly.start_offset(&now, Some(MIDNIGHT_1ST)), Some(-(12 * 1440 + 630)));
}

#[test]
fn offset_rounds_toward_zero_both_ways() {
    let now = Moment { year: 2024, month: 3, day: 13, days_from_monday: 2, timestamp: 120, subsec_nanos: 1 };
    // start 59 s after now (less the nanosecond): zero whole minutes.
    assert_eq!(Cadance::Daily.start_offset(&now, Some(180)), Some(0));
    // start 60 s before now and a nanosecond more: minus one minute.
    assert_eq!(Cadance::Daily.start_offset(&now, Some(60)), Some(-1));
    // start 121 s after now, less a nanosecond: two minutes.
    assert_eq!(Cadance::Daily.start_offset(&now, Some(241)), Some(2));
}

#[test]
fn no_midnight_no_offset() {
    let now = wednesday_morning();
    assert_eq!(Cadance::Daily.start_offset(&now, None), None);
}

#[test]
fn offset_from_the_clock_lies_within_the_period() {
    for c in [Cadance::Daily, Cadance::Weekly, Cadance::Monthly] {
        let offset = c.start_offset_now().expect("midnight is a single local time here");
        assert!(offset <= 0);
        let longest = match c {
            Cadance::Daily => 1440,
            Cadance::Weekly => 7 * 1440,
            Cadance::Monthly => 31 * 1440,
        };
        assert!(offset > -longest);
    }
}
