//! Validation failures raised by the domain value and request constructors.

use vstd::prelude::*;
use vstd::string::StringExecFns;

use crate::text::{dec_digits, u64_to_string};

verus! {

/// Why a domain value or request was rejected.
#[derive(Debug, Clone, PartialEq, Eq)]
pub enum ValidationError {
    /// A required text value was empty (after trimming, where trimming applies).
    Empty { field: &'static str },
    /// A request named more recipients than the endpoint accepts.
    TooManyRecipients { max: usize, actual: usize },
    /// A status request named more message ids than the endpoint accepts.
    TooManySmsIds { max: usize, actual: usize },
    /// A phone number could not be parsed.
    InvalidPhoneNumber { input: String },
    /// A TTL value fell outside the accepted range.
    TtlOutOfRange { min: u16, max: u16, actual: u16 },
    /// A callback URL did not carry an `http`/`https` scheme.
    InvalidCallbackUrl { input: String },
}

/// The human-readable description of a validation failure.
pub open spec fn validation_message_spec(e: ValidationError) -> Seq<char> {
    match e {
        ValidationError::Empty { field } => field@ + " must not be empty"@,
        ValidationError::TooManyRecipients { max, actual } => "too many recipients: "@
            + dec_digits(actual as int) + " (max "@ + dec_digits(max as int) + ")"@,
        ValidationError::TooManySmsIds { max, actual } => "too many sms ids: "@ + dec_digits(
            actual as int,
        ) + " (max "@ + dec_digits(max as int) + ")"@,
        ValidationError::InvalidPhoneNumber { input } => "invalid phone number: "@ + input@,
        ValidationError::TtlOutOfRange { min, max, actual } => "ttl minutes out of range: "@
            + dec_digits(actual as int) + " (expected "@ + dec_digits(min as int) + "..="@
            + dec_digits(max as int) + ")"@,
        ValidationError::InvalidCallbackUrl { input } => "invalid callback url: "@ + input@,
    }
}

impl ValidationError {
    /// Render the failure as human-readable text.
    pub fn message(&self) -> (r: String)
        ensures
            r@ == validation_message_spec(*self),
    {
        match self {
            ValidationError::Empty { field } => {
                let mut out = (*field).to_owned();
                out.append(" must not be empty");
                proof {
                    assert(out@ =~= validation_message_spec(*self));
                }
                out
            },
            ValidationError::TooManyRecipients { max, actual } => {
                let mut out = String::new();
                out.append("too many recipients: ");
                out.append(u64_to_string(*actual as u64).as_str());
                out.append(" (max ");
                out.append(u64_to_string(*max as u64).as_str());
                out.append(")");
                proof {
                    assert(out@ =~= validation_message_spec(*self));
                }
                out
            },
            ValidationError::TooManySmsIds { max, actual } => {
                let mut out = String::new();
                out.append("too many sms ids: ");
                out.append(u64_to_string(*actual as u64).as_str());
                out.append(" (max ");
                out.append(u64_to_string(*max as u64).as_str());
                out.append(")");
                proof {
                    assert(out@ =~= validation_message_spec(*self));
                }
                out
            },
            ValidationError::InvalidPhoneNumber { input } => {
                let mut out = String::new();
                out.append("invalid phone number: ");
                out.append(input.as_str());
                proof {
                    assert(out@ =~= validation_message_spec(*self));
                }
                out
            },
            ValidationError::TtlOutOfRange { min, max, actual } => {
                let mut out = String::new();
                out.append("ttl minutes out of range: ");
                out.append(u64_to_string(*actual as u64).as_str());
                out.append(" (expected ");
                out.append(u64_to_string(*min as u64).as_str());
                out.append("..=");
                out.append(u64_to_string(*max as u64).as_str());
                out.append(")");
                proof {
                    assert(out@ =~= validation_message_spec(*self));
                }
                out
            },
            ValidationError::InvalidCallbackUrl { input } => {
                let mut out = String::new();
                out.append("invalid callback url: ");
                out.append(input.as_str());
                proof {
                    assert(out@ =~= validation_message_spec(*self));
                }
                out
            },
        }
    }
}

} // verus!
