use vstd::prelude::*;

use crate::cadance::Cadance;

verus! {

/// A habit as the user defines it: what it is, how often it is meant to be
/// done, and how many times per period.
#[derive(Clone, Debug, PartialEq)]
pub struct Habit {
    pub name: String,
    pub desciription: String,
    pub cadance: Cadance,
    pub reps: i32,
}

/// The completions of a habit, one entry per period: the period's label (as
/// the date pattern of the habit's cadence formats it) and how many times the
/// habit was done in it.
pub type Completions = Vec<(String, i64)>;

/// A habit together with how often it was done in the current period, and its
/// history of completions.
#[derive(Clone, Debug, PartialEq)]
pub struct HabitWithCompletions {
    pub habit: Habit,
    pub completed: i64,
    pub history: Completions,
}

impl HabitWithCompletions {
    /// How many repetitions are still owed in the current period (negative
    /// once the habit was done more often than asked).
    pub open spec fn remaining_work(self) -> int {
        self.habit.reps - self.completed
    }

    /// The repetitions still owed in the current period: `reps - completed`.
    /// This is the numerator of the habit's urgency.
    pub fn remaining_reps(&self) -> (remaining: i64)
        requires
            i64::MIN <= self.habit.reps - self.completed <= i64::MAX,
        ensures
            remaining == self.remaining_work(),
            remaining == self.habit.reps - self.completed,
    {
        self.habit.reps as i64 - self.completed
    }
}

/// The work still owed is what the habit asks per period less what was done
/// in the current period; the history of earlier periods plays no part, so two
/// records of one habit with the same count for the current period owe the
/// same.
pub proof fn lemma_remaining_work(h: HabitWithCompletions, other: HabitWithCompletions)
    ensures
        h.remaining_work() == h.habit.reps - h.completed,
        other.habit.reps == h.habit.reps && other.completed == h.completed
            ==> other.remaining_work() == h.remaining_work(),
{
}

} // verus!
