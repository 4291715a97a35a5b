use shared::cadance::Cadance;
use shared::habit::{Habit, HabitWithCompletions};

fn with(reps: i32, completed: i64) -> HabitWithCompletions {
    HabitWithCompletions {
        habit: Habit {
            name: "read".to_string(),
            desciription: "ten pages".to_string(),
            cadance: Cadance::Daily,
            reps,
        },
        completed,
        history: vec![("2024-03-13".to_string(), completed)],
    }
}

#[test]
fn remaining_reps_is_reps_less_completed() {
    assert_eq!(with(3, 1).remaining_reps(), 2);
    assert_eq!(with(3, 0).remaining_reps(), 3);
    assert_eq!(with(3, 5).remaining_reps(), -2);
    assert_eq!(with(i32::MIN, i64::MAX - (1i64 << 31) + 1).remaining_reps(), i64::MIN);
}
