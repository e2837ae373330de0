//! The errors of the time and date helpers.
use vstd::prelude::*;

verus! {

/// A value given for a date or time component lies outside its range.
#[derive(Clone, Copy, Debug, PartialEq, Eq, Structural)]
pub struct ComponentRange {
    /// The smallest value allowed.
    pub minimum: i64,
    /// The largest value allowed.
    pub maximum: i64,
    /// The value given.
    pub value: i64,
    /// Whether the range depends on other components (as the days of a month do).
    pub conditional_range: bool,
}

/// Any error of the time and date helpers.
#[derive(Clone, Copy, Debug, PartialEq, Eq, Structural)]
pub enum Error {
    /// A conversion between two kinds of duration went out of range.
    ConversionRange,
    /// A component was out of its range.
    ComponentRange(ComponentRange),
    /// The local offset from UTC could not be determined.
    IndeterminateOffset,
    /// Characters were left over after parsing.
    UnexpectedTrailingCharacters,
}

} // verus!
