//! Extraction of structured semantic values — numbers, ordinals, durations,
//! points and intervals in time, money amounts, temperatures, percentages —
//! from free-form English text, resolved against a reference instant.
//!
//! The crate is layered leaves first: the moment kernel (`moment`,
//! `interval`), the lazy constraint algebra (`constraint`, `streams`,
//! `eval`), the value model (`values`, `helpers`), the chart-parsing
//! grammar engine (`pattern`, `engine`, `en`), and the candidate tagger
//! with its resolver (`output`, `tagger`).

pub mod constraint;
pub mod en;
pub mod engine;
pub mod eval;
pub mod grain;
pub mod helpers;
pub mod interval;
pub mod moment;
pub mod output;
pub mod pattern;
pub mod period;
pub mod streams;
pub mod tagger;
pub mod values;

pub use grain::{Grain, Precision, Weekday};
pub use period::Period;
