//! The error kinds of the conversion pipeline, and their one-line messages.

use vstd::prelude::*;

verus! {

/// Why a numeric literal failed to parse.
#[derive(Debug, Clone, Copy, PartialEq, Eq, Structural)]
pub enum ParseFault {
    /// The digit body was empty (the whole literal, or what follows `0x`).
    Empty,
    /// A character was not a valid digit in the attempted radix.
    InvalidDigit,
    /// The digits form a value outside the native 64-bit signed range.
    Overflow,
}

/// An error of the conversion or codec pipeline.
#[derive(Debug)]
pub enum RadixError {
    /// The literal failed both the decimal and the hexadecimal parse.
    InvalidInput(ParseFault),
    /// The operator token is not one of `+ - * / %`; carries the token.
    UnsupportedOperator(String),
    /// `/` or `%` with a zero divisor.
    DivisionByZero,
    /// The base64 input could not be decoded.
    DecodeFailure,
}

impl RadixError {
    /// A single-line human-readable message for this error.
    pub fn message(&self) -> (r: String)
        ensures
            match self {
                RadixError::InvalidInput(ParseFault::Empty) => r@ == "empty numeric literal"@,
                RadixError::InvalidInput(ParseFault::InvalidDigit) => r@
                    == "invalid digit in numeric literal"@,
                RadixError::InvalidInput(ParseFault::Overflow) => r@
                    == "numeric literal out of range"@,
                RadixError::UnsupportedOperator(t) => r@ == "operator not implemented: "@ + t@,
                RadixError::DivisionByZero => r@ == "division by zero"@,
                RadixError::DecodeFailure => r@ == "cannot decode input string"@,
            },
    {
        match self {
            RadixError::InvalidInput(ParseFault::Empty) => "empty numeric literal".to_owned(),
            RadixError::InvalidInput(ParseFault::InvalidDigit) => "invalid digit in numeric literal".to_owned(),
            RadixError::InvalidInput(ParseFault::Overflow) => "numeric literal out of range".to_owned(),
            RadixError::UnsupportedOperator(t) => "operator not implemented: ".to_owned().concat(
                t.as_str(),
            ),
            RadixError::DivisionByZero => "division by zero".to_owned(),
            RadixError::DecodeFailure => "cannot decode input string".to_owned(),
        }
    }
}

} // verus!
