use vstd::prelude::*;

use crate::text::text_is;

verus! {

/// How often a habit is meant to be done.
#[derive(Clone, Debug, PartialEq, Eq, Structural)]
pub enum Cadance {
    Daily,
    Weekly,
    Monthly,
}

impl Cadance {
    /// The word by which a cadence is written out and stored.
    pub open spec fn name(self) -> Seq<char> {
        match self {
            Cadance::Daily => "daily"@,
            Cadance::Weekly => "weekly"@,
            Cadance::Monthly => "monthly"@,
        }
    }

    /// The cadence whose word is `text`, if there is one.
    pub open spec fn named(text: Seq<char>) -> Option<Cadance> {
        if text == "daily"@ {
            Some(Cadance::Daily)
        } else if text == "weekly"@ {
            Some(Cadance::Weekly)
        } else if text == "monthly"@ {
            Some(Cadance::Monthly)
        } else {
            None
        }
    }

    /// Reads a cadence from its word: `"daily"`, `"weekly"` or `"monthly"`,
    /// exactly as written; any other text gives `None`.
    pub fn from(text: &str) -> (res: Option<Cadance>)
        ensures
            res == Cadance::named(text@),
    {
        if text_is(text, "daily") {
            Some(Cadance::Daily)
        } else if text_is(text, "weekly") {
            Some(Cadance::Weekly)
        } else if text_is(text, "monthly") {
            Some(Cadance::Monthly)
        } else {
            None
        }
    }

    /// The word of this cadence, as it is shown and stored.
    pub fn to_string(&self) -> (text: String)
        ensures
            text@ == self.name(),
    {
        match self {
            Cadance::Daily => "daily".to_string(),
            Cadance::Weekly => "weekly".to_string(),
            Cadance::Monthly => "monthly".to_string(),
        }
    }

    /// The length of one period of this cadence, in minutes, by which the
    /// time gone in the current period is measured: a day, a week, and
    /// thirty-one weeks for a month
    /// (24·60, 7·24·60 and 31·7·24·60).
    pub open spec fn period_length(self) -> int {
        match self {
            Cadance::Daily => 1440int,
            Cadance::Weekly => 10080int,
            Cadance::Monthly => 312480int,
        }
    }

    /// The length in minutes of one period of this cadence (see
    /// `period_length`).
    pub fn period_minutes(&self) -> (minutes: i64)
        ensures
            minutes == self.period_length(),
    {
        match self {
            Cadance::Daily => 24 * 60,
            Cadance::Weekly => 7 * 24 * 60,
            Cadance::Monthly => 31 * 7 * 24 * 60,
        }
    }

    /// The pattern by which the database groups completion times into periods
    /// of this cadence.
    pub open spec fn pattern(self) -> Seq<char> {
        match self {
            Cadance::Daily => "YYYY-MM-DD"@,
            Cadance::Weekly => "YYYY-IW"@,
            Cadance::Monthly => "YYYY-MM"@,
        }
    }
}

/// The date pattern (in the database's `TO_CHAR` notation) that names the
/// period of `cadance` in which a completion falls: the day, the ISO week, or
/// the month.
pub fn date_pattern(cadance: &Cadance) -> (pattern: String)
    ensures
        pattern@ == cadance.pattern(),
{
    match cadance {
        Cadance::Daily => "YYYY-MM-DD".to_string(),
        Cadance::Weekly => "YYYY-IW".to_string(),
        Cadance::Monthly => "YYYY-MM".to_string(),
    }
}

/// A cadence written out is read back as the same cadence.
pub proof fn lemma_read_after_write(c: Cadance)
    ensures
        Cadance::named(c.name()) == Some(c),
{
    reveal_strlit("daily");
    reveal_strlit("weekly");
    reveal_strlit("monthly");
    assert("daily"@.len() == 5);
    assert("weekly"@.len() == 6);
    assert("monthly"@.len() == 7);
}

/// Only the words of the three cadences are read as a cadence, and each is
/// read as the cadence whose word it is.
pub proof fn lemma_write_after_read(text: Seq<char>)
    ensures
        Cadance::named(text) matches Some(c) ==> c.name() == text,
{
}

/// Distinct cadences are written out as distinct words.
pub proof fn lemma_names_distinct(a: Cadance, b: Cadance)
    ensures
        a.name() == b.name() ==> a == b,
{
    lemma_read_after_write(a);
    lemma_read_after_write(b);
}

/// Distinct cadences group completions by distinct date patterns.
pub proof fn lemma_patterns_distinct(a: Cadance, b: Cadance)
    ensures
        a.pattern() == b.pattern() ==> a == b,
{
    reveal_strlit("YYYY-MM-DD");
    reveal_strlit("YYYY-IW");
    reveal_strlit("YYYY-MM");
    assert("YYYY-MM-DD"@.len() == 10);
    assert("YYYY-IW"@.len() == 7);
    assert("YYYY-MM"@.len() == 7);
    assert("YYYY-IW"@[5] != "YYYY-MM"@[5]);
}

/// The periods are ordered: a day is shorter than a week, a week shorter than
/// the span counted for a month, and every period is positive.
pub proof fn lemma_period_lengths()
    ensures
        0 < Cadance::Daily.period_length() < Cadance::Weekly.period_length()
            < Cadance::Monthly.period_length(),
{
}

} // verus!
