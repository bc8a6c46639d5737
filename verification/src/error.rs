//! The error type shared by every fallible operation of the crate.

use vstd::prelude::*;

use crate::text::{decimal, push_char, append_decimal};

verus! {

/// Why a computation or a construction was refused.
#[derive(Debug, Clone, PartialEq, Eq)]
pub enum IndicatorError {
    /// Fewer input bars than the computation needs.
    InsufficientData { required: usize, available: usize },
    /// A named parameter held text that is not a valid value; `value` is
    /// that text.
    InvalidParameter { name: String, value: String },
    /// No indicator is registered under `name`.
    UnknownIndicator { name: String },
    /// A construction-time validation failure.
    InvalidParam(String),
}

/// The human-readable message of an error.
pub open spec fn error_message(e: IndicatorError) -> Seq<char> {
    match e {
        IndicatorError::InsufficientData { required, available } =>
            "Insufficient data: required "@ + decimal(required as nat) + " candles, but only "@
                + decimal(available as nat) + " available"@,
        IndicatorError::InvalidParameter { name, value } =>
            "Invalid parameter "@ + name@ + ": "@ + value@,
        IndicatorError::UnknownIndicator { name } =>
            "Unknown indicator: '"@ + name@ + "'"@,
        IndicatorError::InvalidParam(msg) =>
            "Invalid parameter: "@ + msg@,
    }
}

impl IndicatorError {
    /// The human-readable message of this error.
    pub fn message(&self) -> (r: String)
        ensures
            r@ == error_message(*self),
    {
        match self {
            IndicatorError::InsufficientData { required, available } => {
                let mut r = String::from_str("Insufficient data: required ");
                append_decimal(&mut r, *required as u64);
                r.append(" candles, but only ");
                append_decimal(&mut r, *available as u64);
                r.append(" available");
                r
            },
            IndicatorError::InvalidParameter { name, value } => {
                let mut r = String::from_str("Invalid parameter ");
                r.append(name.as_str());
                r.append(": ");
                r.append(value.as_str());
                r
            },
            IndicatorError::UnknownIndicator { name } => {
                let mut r = String::from_str("Unknown indicator: '");
                r.append(name.as_str());
                push_char(&mut r, '\'');
                proof {
                    reveal_strlit("'");
                    assert("'"@ =~= seq!['\'']);
                }
                r
            },
            IndicatorError::InvalidParam(msg) => {
                let mut r = String::from_str("Invalid parameter: ");
                r.append(msg.as_str());
                r
            },
        }
    }
}

/// Refuses a computation that was handed fewer bars than it needs.
///
/// `Err(InsufficientData { required, available })` exactly when
/// `available < required`.
pub fn check_len(available: usize, required: usize) -> (r: Result<(), IndicatorError>)
    ensures
        r is Ok <==> available >= required,
        r is Err ==> r == Err::<(), IndicatorError>(
            IndicatorError::InsufficientData { required, available },
        ),
{
    if available < required {
        Err(IndicatorError::InsufficientData { required, available })
    } else {
        Ok(())
    }
}

} // verus!
