use shared::cadance::{date_pattern, Cadance};

#[test]
fn from_reads_each_word() {
    assert_eq!(Cadance::from("daily"), Some(Cadance::Daily));
    assert_eq!(Cadance::from("weekly"), Some(Cadance::Weekly));
    assert_eq!(Cadance::from("monthly"), Some(Cadance::Monthly));
}

#[test]
fn from_refuses_other_text() {
    assert_eq!(Cadance::from(""), None);
    assert_eq!(Cadance::from("Daily"), None);
    assert_eq!(Cadance::from("daily "), None);
    assert_eq!(Cadance::from("dail"), None);
    assert_eq!(Cadance::from("yearly"), None);
    assert_eq!(Cadance::from("monthlyx"), None);
}

#[test]
fn to_string_writes_each_word() {
    assert_eq!(Cadance::Daily.to_string(), "daily");
    assert_eq!(Cadance::Weekly.to_string(), "weekly");
    assert_eq!(Cadance::Monthly.to_string(), "monthly");
}

#[test]
fn written_cadence_reads_back() {
    for c in [Cadance::Daily, Cadance::Weekly, Cadance::Monthly] {
        assert_eq!(Cadance::from(&c.to_string()), Some(c.clone()));
    }
}

#[test]
fn date_pattern_per_cadence() {
    assert_eq!(date_pattern(&Cadance::Daily), "YYYY-MM-DD");
    assert_eq!(date_pattern(&Cadance::Weekly), "YYYY-IW");
    assert_eq!(date_pattern(&Cadance::Monthly), "YYYY-MM");
}

#[test]
fn period_minutes_per_cadence() {
    assert_eq!(Cadance::Daily.period_minutes(), 1440);
    assert_eq!(Cadance::Weekly.period_minutes(), 10080);
    assert_eq!(Cadance::Monthly.period_minutes(), 312480);
}

#[test]
fn distinct_cadences_have_distinct_words_and_patterns() {
    let all = [Cadance::Daily, Cadance::Weekly, Cadance::Monthly];
    for a in all.iter() {
        for b in all.iter() {
            if a != b {
                assert_ne!(a.to_string(), b.to_string());
                assert_ne!(date_pattern(a), date_pattern(b));
            }
        }
    }
}

#[test]
fn periods_grow_from_day_to_month() {
    assert!(0 < Cadance::Daily.period_minutes());
    assert!(Cadance::Daily.period_minutes() < Cadance::Weekly.period_minutes());
    assert!(Cadance::Weekly.period_minutes() < Cadance::Monthly.period_minutes());
}
