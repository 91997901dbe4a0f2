//! Decode failures raised by the wire-mapping layer.
//!
//! A top-level `status=ERROR` envelope is not an error here: decoding such a
//! body succeeds and yields a typed envelope. These variants cover bodies
//! that cannot be decoded, or whose per-item keys cannot be attributed to the
//! originating request.

use vstd::prelude::*;

verus! {

/// Why a response body could not be decoded.
#[derive(Debug, Clone, PartialEq, Eq)]
pub enum TransportError {
    /// The body is not valid JSON, is not the expected shape, is missing a
    /// load-bearing field (`status`, `status_code`), or carries an unexpected
    /// `status` literal.
    MalformedPayload,
    /// A money- or count-like field is neither a JSON string nor a usable
    /// JSON number.
    InvalidScalar,
    /// A per-item key could not be matched to any phone number of the
    /// originating request.
    UnknownPhoneNumberKey { key: String },
    /// A per-item key could not be matched to any sms id of the originating
    /// request.
    UnknownSmsIdKey { key: String },
    /// A callback URL in the response failed the library's URL validation.
    InvalidCallbackUrl { value: String },
    /// A stoplist key in the response failed phone validation.
    InvalidStoplistPhoneKey { key: String },
    /// A check id in the response failed its validation.
    InvalidCheckId { value: String },
    /// A call phone in the response failed its validation.
    InvalidCallPhone { value: String },
}

/// The mathematical form of a [`TransportError`].
pub enum TransportErrModel {
    Malformed,
    InvalidScalar,
    UnknownPhoneNumberKey(Seq<char>),
    UnknownSmsIdKey(Seq<char>),
    InvalidCallbackUrl(Seq<char>),
    InvalidStoplistPhoneKey(Seq<char>),
    InvalidCheckId(Seq<char>),
    InvalidCallPhone(Seq<char>),
}

impl View for TransportError {
    type V = TransportErrModel;

    open spec fn view(&self) -> TransportErrModel {
        match self {
            TransportError::MalformedPayload => TransportErrModel::Malformed,
            TransportError::InvalidScalar => TransportErrModel::InvalidScalar,
            TransportError::UnknownPhoneNumberKey { key } => {
                TransportErrModel::UnknownPhoneNumberKey(key@)
            },
            TransportError::UnknownSmsIdKey { key } => TransportErrModel::UnknownSmsIdKey(key@),
            TransportError::InvalidCallbackUrl { value } => {
                TransportErrModel::InvalidCallbackUrl(value@)
            },
            TransportError::InvalidStoplistPhoneKey { key } => {
                TransportErrModel::InvalidStoplistPhoneKey(key@)
            },
            TransportError::InvalidCheckId { value } => TransportErrModel::InvalidCheckId(value@),
            TransportError::InvalidCallPhone { value } => {
                TransportErrModel::InvalidCallPhone(value@)
            },
        }
    }
}

} // verus!
