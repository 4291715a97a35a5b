# shared

The verified core of a small habit tracker.

- `src/cadance.rs`: the three cadences, how they are read from and written to
  text, the database date pattern of each, and the length of each period.
- `src/calendar.rs`: the proleptic Gregorian calendar: valid days, day
  numbers since 1970-01-01, weekdays.
- `src/clock.rs`: readings of the local clock and the signed minutes from now
  to the start of the current period.
- `src/habit.rs`: the habit records and the repetitions still owed.
- `app/`: the HTTP server (axum, sqlx, shuttle) and the yew frontend, with the
  serde copies of the records and the floating-point urgency.
