//! Failure conditions of the conversion engine.
//!
//! A conversion fails with a range error when a 128-bit integer cannot be
//! widened losslessly into the decimal leaf, with a sentinel error when a
//! unit case under the reserved sentinel token carries an unknown case name,
//! with a constant error when a case under the reserved constant token names
//! no known constant, and with a string or shape error when a builder is fed
//! an event of the wrong form.
use vstd::prelude::*;

verus! {

/// The integer literal that a range error names.
#[derive(Debug, Clone, PartialEq)]
pub enum IntLiteral {
    Signed(i128),
    Unsigned(u128),
}

/// The numeric kind that a range error names as its target.
#[derive(Debug, Clone, PartialEq)]
pub enum NumericKind {
    Decimal,
}

#[derive(Debug, Clone, PartialEq)]
pub enum Error {
    /// A primitive value cannot be represented losslessly in the target
    /// numeric leaf; names the offending literal and the target kind.
    Range { literal: IntLiteral, target: NumericKind },
    /// A unit case under the reserved sentinel token carried an unknown
    /// case name.
    UnknownSentinel { variant: String },
    /// A unit case under the reserved constant token named no known
    /// constant.
    UnknownConstant { variant: String },
    /// A map key, or a text-only payload, was not string-shaped.
    ExpectedString,
    /// A builder or a reserved reconstruction rule was fed an event of the
    /// wrong form, or a required field was missing.
    Shape,
}

/// Mathematical image of an `Error`.
pub enum ErrorV {
    Range { literal: IntLiteral, target: NumericKind },
    UnknownSentinel { variant: Seq<char> },
    UnknownConstant { variant: Seq<char> },
    ExpectedString,
    Shape,
}

impl View for Error {
    type V = ErrorV;

    open spec fn view(&self) -> ErrorV {
        match self {
            Error::Range { literal, target } => ErrorV::Range {
                literal: *literal,
                target: *target,
            },
            Error::UnknownSentinel { variant } => ErrorV::UnknownSentinel { variant: variant@ },
            Error::UnknownConstant { variant } => ErrorV::UnknownConstant { variant: variant@ },
            Error::ExpectedString => ErrorV::ExpectedString,
            Error::Shape => ErrorV::Shape,
        }
    }
}

} // verus!
