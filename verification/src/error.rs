//! The ways in which reading or building an identifier can fail.

use vstd::prelude::*;

verus! {

/// Why a text is not an unsigned 64-bit decimal number.
#[derive(Clone, Copy, Debug, PartialEq, Eq, Structural)]
pub enum ParseDiagnostic {
    /// The text has no characters.
    Empty,
    /// The text holds a character other than `0` to `9`.
    InvalidDigit,
    /// The text is a decimal number above `u64::MAX`.
    Overflow,
}

impl ParseDiagnostic {
    /// The sentence that [`ParseDiagnostic::message`] returns.
    pub open spec fn text(self) -> Seq<char> {
        match self {
            ParseDiagnostic::Empty => "cannot parse integer from empty string"@,
            ParseDiagnostic::InvalidDigit => "invalid digit found in string"@,
            ParseDiagnostic::Overflow => "number too large to fit in target type"@,
        }
    }

    /// A sentence for display to a user.
    pub fn message(self) -> (r: &'static str)
        ensures
            r@ == self.text(),
    {
        match self {
            ParseDiagnostic::Empty => "cannot parse integer from empty string",
            ParseDiagnostic::InvalidDigit => "invalid digit found in string",
            ParseDiagnostic::Overflow => "number too large to fit in target type",
        }
    }
}

/// Every failure that this crate reports.
#[derive(Clone, Copy, Debug, PartialEq, Eq, Structural)]
pub enum SnowflakeError {
    /// The text is not a well-formed unsigned 64-bit decimal number.
    InvalidFormat(ParseDiagnostic),
    /// The value is zero, which no identifier has.
    InvalidIdentifier,
    /// The time does not fit the type or the field that has to hold it.
    TimestampOutOfRange,
    /// The time lies before the fixed epoch.
    EpochUnderflow,
}

} // verus!
