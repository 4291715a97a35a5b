//! The shared model of a habit tracker: the cadences a habit can have, the
//! records that the server stores and hands out, and the arithmetic that tells
//! how far the current period has run.

pub mod cadance;
pub mod calendar;
pub mod clock;
pub mod habit;
pub mod text;
