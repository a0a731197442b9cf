//! Numbering of counters: numeral systems, numbering patterns and their
//! application to sequences of numbers.
pub mod text;
pub mod numerals;
pub mod kind;
pub mod pattern;
pub mod facade;

pub use facade::{numbering, Numbered, Numbering};
pub use kind::NumberingKind;
pub use pattern::{NumberingPattern, PatternError};
