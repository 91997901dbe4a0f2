//! Domain value types: validated string newtypes, numeric option values, and
//! the open status-code space with its closed classification of known codes.

use vstd::prelude::*;
use vstd::string::StrSliceExecFns;
use vstd::string::StringExecFns;

use crate::text::{trim_spec, trim_str};
use crate::validation::ValidationError;

verus! {

/// Whether `s` trimmed of surrounding whitespace is empty.
pub open spec fn blank(s: Seq<char>) -> bool {
    trim_spec(s).len() == 0
}

/// SMS.RU `api_id` token.
///
/// Invariant: non-empty after trimming.
#[derive(Debug, Clone, PartialEq, Eq, Hash)]
pub struct ApiId(String);

impl View for ApiId {
    type V = Seq<char>;

    closed spec fn view(&self) -> Seq<char> {
        self.0@
    }
}

impl ApiId {
    /// Form field name used by SMS.RU (`api_id`).
    pub const FIELD: &'static str = "api_id";

    /// Create a validated [`ApiId`], trimming surrounding whitespace.
    pub fn new(value: &str) -> (r: Result<Self, ValidationError>)
        ensures
            match r {
                Ok(a) => !blank(value@) && a@ == trim_spec(value@),
                Err(e) => blank(value@) && (e matches ValidationError::Empty { field } && field@
                    == "api_id"@),
            },
    {
        let trimmed = trim_str(value);
        if trimmed.as_str().unicode_len() == 0 {
            return Err(ValidationError::Empty { field: Self::FIELD });
        }
        Ok(Self(trimmed))
    }

    /// Borrow the validated token.
    pub fn as_str(&self) -> (r: &str)
        ensures
            r@ == self@,
    {
        self.0.as_str()
    }
}

/// SMS.RU account login.
///
/// Invariant: non-empty after trimming.
#[derive(Debug, Clone, PartialEq, Eq, Hash)]
pub struct Login(String);

impl View for Login {
    type V = Seq<char>;

    closed spec fn view(&self) -> Seq<char> {
        self.0@
    }
}

impl Login {
    /// Form field name used by SMS.RU (`login`).
    pub const FIELD: &'static str = "login";

    /// Create a validated [`Login`], trimming surrounding whitespace.
    pub fn new(value: &str) -> (r: Result<Self, ValidationError>)
        ensures
            match r {
                Ok(a) => !blank(value@) && a@ == trim_spec(value@),
                Err(e) => blank(value@) && (e matches ValidationError::Empty { field } && field@
                    == "login"@),
            },
    {
        let trimmed = trim_str(value);
        if trimmed.as_str().unicode_len() == 0 {
            return Err(ValidationError::Empty { field: Self::FIELD });
        }
        Ok(Self(trimmed))
    }

    /// Borrow the validated login.
    pub fn as_str(&self) -> (r: &str)
        ensures
            r@ == self@,
    {
        self.0.as_str()
    }
}

/// SMS.RU account password.
///
/// Invariant: must not be empty; whitespace is preserved and allowed.
#[derive(Debug, Clone, PartialEq, Eq, Hash)]
pub struct Password(String);

impl View for Password {
    type V = Seq<char>;

    closed spec fn view(&self) -> Seq<char> {
        self.0@
    }
}

impl Password {
    /// Form field name used by SMS.RU (`password`).
    pub const FIELD: &'static str = "password";

    /// Create a validated [`Password`]; the value is kept exactly as given.
    pub fn new(value: &str) -> (r: Result<Self, ValidationError>)
        ensures
            match r {
                Ok(a) => value@.len() > 0 && a@ == value@,
                Err(e) => value@.len() == 0 && (e matches ValidationError::Empty { field }
                    && field@ == "password"@),
            },
    {
        if value.unicode_len() == 0 {
            return Err(ValidationError::Empty { field: Self::FIELD });
        }
        Ok(Self(value.to_owned()))
    }

    /// Borrow the password as provided.
    pub fn as_str(&self) -> (r: &str)
        ensures
            r@ == self@,
    {
        self.0.as_str()
    }
}

/// Optional partner identifier for SMS.RU (`partner_id`).
///
/// Invariant: non-empty after trimming.
#[derive(Debug, Clone, PartialEq, Eq, Hash)]
pub struct PartnerId(String);

impl View for PartnerId {
    type V = Seq<char>;

    closed spec fn view(&self) -> Seq<char> {
        self.0@
    }
}

impl PartnerId {
    /// Form field name used by SMS.RU (`partner_id`).
    pub const FIELD: &'static str = "partner_id";

    /// Create a validated [`PartnerId`], trimming surrounding whitespace.
    pub fn new(value: &str) -> (r: Result<Self, ValidationError>)
        ensures
            match r {
                Ok(a) => !blank(value@) && a@ == trim_spec(value@),
                Err(e) => blank(value@) && (e matches ValidationError::Empty { field } && field@
                    == "partner_id"@),
            },
    {
        let trimmed = trim_str(value);
        if trimmed.as_str().unicode_len() == 0 {
            return Err(ValidationError::Empty { field: Self::FIELD });
        }
        Ok(Self(trimmed))
    }

    /// Borrow the validated partner id.
    pub fn as_str(&self) -> (r: &str)
        ensures
            r@ == self@,
    {
        self.0.as_str()
    }
}

/// SMS.RU sender id (`from`).
///
/// Invariant: non-empty after trimming; the value must be enabled in the
/// SMS.RU account.
#[derive(Debug, Clone, PartialEq, Eq, Hash)]
pub struct SenderId(String);

impl View for SenderId {
    type V = Seq<char>;

    closed spec fn view(&self) -> Seq<char> {
        self.0@
    }
}

impl SenderId {
    /// Form field name used by SMS.RU (`from`).
    pub const FIELD: &'static str = "from";

    /// Create a validated [`SenderId`], trimming surrounding whitespace.
    pub fn new(value: &str) -> (r: Result<Self, ValidationError>)
        ensures
            match r {
                Ok(a) => !blank(value@) && a@ == trim_spec(value@),
                Err(e) => blank(value@) && (e matches ValidationError::Empty { field } && field@
                    == "from"@),
            },
    {
        let trimmed = trim_str(value);
        if trimmed.as_str().unicode_len() == 0 {
            return Err(ValidationError::Empty { field: Self::FIELD });
        }
        Ok(Self(trimmed))
    }

    /// Borrow the validated sender id.
    pub fn as_str(&self) -> (r: &str)
        ensures
            r@ == self@,
    {
        self.0.as_str()
    }
}

/// SMS message text (`msg`).
///
/// Invariant: non-empty after trimming; the original value, whitespace
/// included, is preserved.
#[derive(Debug, PartialEq, Eq, Hash)]
pub struct MessageText(String);

impl Clone for MessageText {
    /// The copy carries the same text.
    fn clone(&self) -> (r: Self)
        ensures
            r@ == self@,
    {
        Self(self.0.clone())
    }
}

impl View for MessageText {
    type V = Seq<char>;

    closed spec fn view(&self) -> Seq<char> {
        self.0@
    }
}

impl MessageText {
    /// Form field name used by SMS.RU (`msg`).
    pub const FIELD: &'static str = "msg";

    /// Create validated message text; the value is kept exactly as given.
    pub fn new(value: &str) -> (r: Result<Self, ValidationError>)
        ensures
            match r {
                Ok(a) => !blank(value@) && a@ == value@,
                Err(e) => blank(value@) && (e matches ValidationError::Empty { field } && field@
                    == "msg"@),
            },
    {
        let trimmed = trim_str(value);
        if trimmed.as_str().unicode_len() == 0 {
            return Err(ValidationError::Empty { field: Self::FIELD });
        }
        Ok(Self(value.to_owned()))
    }

    /// Borrow the message text as provided.
    pub fn as_str(&self) -> (r: &str)
        ensures
            r@ == self@,
    {
        self.0.as_str()
    }
}

/// SMS.RU message id (`sms_id`) returned by `sms/send`.
///
/// Invariant: non-empty after trimming.
#[derive(Debug, PartialEq, Eq, PartialOrd, Ord, Hash)]
pub struct SmsId(String);

impl Clone for SmsId {
    /// The copy carries the same text.
    fn clone(&self) -> (r: Self)
        ensures
            r@ == self@,
    {
        Self(self.0.clone())
    }
}

impl View for SmsId {
    type V = Seq<char>;

    closed spec fn view(&self) -> Seq<char> {
        self.0@
    }
}

impl SmsId {
    /// Form field name used by SMS.RU (`sms_id`).
    pub const FIELD: &'static str = "sms_id";

    /// Create a validated [`SmsId`], trimming surrounding whitespace.
    pub fn new(value: &str) -> (r: Result<Self, ValidationError>)
        ensures
            match r {
                Ok(a) => !blank(value@) && a@ == trim_spec(value@),
                Err(e) => blank(value@) && (e matches ValidationError::Empty { field } && field@
                    == "sms_id"@),
            },
    {
        let trimmed = trim_str(value);
        if trimmed.as_str().unicode_len() == 0 {
            return Err(ValidationError::Empty { field: Self::FIELD });
        }
        Ok(Self(trimmed))
    }

    /// Borrow the validated sms id.
    pub fn as_str(&self) -> (r: &str)
        ensures
            r@ == self@,
    {
        self.0.as_str()
    }
}

/// SMS.RU call-auth check id (`check_id`) returned by `callcheck/add`.
///
/// Invariant: non-empty after trimming.
#[derive(Debug, PartialEq, Eq, PartialOrd, Ord, Hash)]
pub struct CallCheckId(String);

impl Clone for CallCheckId {
    /// The copy carries the same text.
    fn clone(&self) -> (r: Self)
        ensures
            r@ == self@,
    {
        Self(self.0.clone())
    }
}

impl View for CallCheckId {
    type V = Seq<char>;

    closed spec fn view(&self) -> Seq<char> {
        self.0@
    }
}

impl CallCheckId {
    /// Form field name used by SMS.RU (`check_id`).
    pub const FIELD: &'static str = "check_id";

    /// Create a validated [`CallCheckId`], trimming surrounding whitespace.
    pub fn new(value: &str) -> (r: Result<Self, ValidationError>)
        ensures
            match r {
                Ok(a) => !blank(value@) && a@ == trim_spec(value@),
                Err(e) => blank(value@) && (e matches ValidationError::Empty { field } && field@
                    == "check_id"@),
            },
    {
        let trimmed = trim_str(value);
        if trimmed.as_str().unicode_len() == 0 {
            return Err(ValidationError::Empty { field: Self::FIELD });
        }
        Ok(Self(trimmed))
    }

    /// Borrow the validated check id.
    pub fn as_str(&self) -> (r: &str)
        ensures
            r@ == self@,
    {
        self.0.as_str()
    }
}

/// Phone number as sent to SMS.RU (`to`), kept as given apart from trimming.
///
/// Invariant: non-empty after trimming. This type does not normalize; for
/// E.164 normalization parse a [`PhoneNumber`] and convert it.
#[derive(Debug, PartialEq, Eq, PartialOrd, Ord, Hash)]
pub struct RawPhoneNumber(String);

impl Clone for RawPhoneNumber {
    /// The copy carries the same text.
    fn clone(&self) -> (r: Self)
        ensures
            r@ == self@,
    {
        Self(self.0.clone())
    }
}

impl View for RawPhoneNumber {
    type V = Seq<char>;

    closed spec fn view(&self) -> Seq<char> {
        self.0@
    }
}

impl RawPhoneNumber {
    /// Form field name used by SMS.RU (`to`).
    pub const FIELD: &'static str = "to";

    /// Create a validated (non-empty) raw phone number, trimming whitespace.
    pub fn new(value: &str) -> (r: Result<Self, ValidationError>)
        ensures
            match r {
                Ok(a) => !blank(value@) && a@ == trim_spec(value@),
                Err(e) => blank(value@) && (e matches ValidationError::Empty { field } && field@
                    == "to"@),
            },
    {
        let trimmed = trim_str(value);
        if trimmed.as_str().unicode_len() == 0 {
            return Err(ValidationError::Empty { field: Self::FIELD });
        }
        Ok(Self(trimmed))
    }

    /// Raw (trimmed) value as sent to SMS.RU.
    pub fn raw(&self) -> (r: &str)
        ensures
            r@ == self@,
    {
        self.0.as_str()
    }

}

/// Stoplist note text (`stoplist_text`).
///
/// Invariant: non-empty after trimming.
#[derive(Debug, Clone, PartialEq, Eq, Hash)]
pub struct StoplistText(String);

impl View for StoplistText {
    type V = Seq<char>;

    closed spec fn view(&self) -> Seq<char> {
        self.0@
    }
}

impl StoplistText {
    /// Form field name used by SMS.RU (`stoplist_text`).
    pub const FIELD: &'static str = "stoplist_text";

    /// Create a validated [`StoplistText`], trimming surrounding whitespace.
    pub fn new(value: &str) -> (r: Result<Self, ValidationError>)
        ensures
            match r {
                Ok(a) => !blank(value@) && a@ == trim_spec(value@),
                Err(e) => blank(value@) && (e matches ValidationError::Empty { field } && field@
                    == "stoplist_text"@),
            },
    {
        let trimmed = trim_str(value);
        if trimmed.as_str().unicode_len() == 0 {
            return Err(ValidationError::Empty { field: Self::FIELD });
        }
        Ok(Self(trimmed))
    }

    /// Borrow the validated note text.
    pub fn as_str(&self) -> (r: &str)
        ensures
            r@ == self@,
    {
        self.0.as_str()
    }
}

/// Whether `s` begins with the scheme of an absolute `http` or `https` URL.
pub open spec fn has_http_scheme(s: Seq<char>) -> bool {
    s.len() >= 7 && s.subrange(0, 7) == "http://"@ || s.len() >= 8 && s.subrange(0, 8)
        == "https://"@
}

/// Callback handler URL (`url`).
///
/// Invariant: non-empty after trimming and carrying an `http`/`https` scheme.
#[derive(Debug, Clone, PartialEq, Eq, Hash)]
pub struct CallbackUrl(String);

impl View for CallbackUrl {
    type V = Seq<char>;

    closed spec fn view(&self) -> Seq<char> {
        self.0@
    }
}

impl CallbackUrl {
    /// Form field name used by SMS.RU (`url`).
    pub const FIELD: &'static str = "url";

    /// Create a validated [`CallbackUrl`], trimming surrounding whitespace.
    pub fn new(value: &str) -> (r: Result<Self, ValidationError>)
        ensures
            match r {
                Ok(a) => !blank(value@) && has_http_scheme(trim_spec(value@)) && a@ == trim_spec(
                    value@,
                ),
                Err(e) => match e {
                    ValidationError::Empty { field } => blank(value@) && field@ == "url"@,
                    ValidationError::InvalidCallbackUrl { input } => !blank(value@)
                        && !has_http_scheme(trim_spec(value@)) && input@ == trim_spec(value@),
                    _ => false,
                },
            },
    {
        let trimmed = trim_str(value);
        if trimmed.as_str().unicode_len() == 0 {
            return Err(ValidationError::Empty { field: Self::FIELD });
        }
        if !starts_with_http_scheme(trimmed.as_str()) {
            return Err(ValidationError::InvalidCallbackUrl { input: trimmed });
        }
        Ok(Self(trimmed))
    }

    /// Borrow the validated URL.
    pub fn as_str(&self) -> (r: &str)
        ensures
            r@ == self@,
    {
        self.0.as_str()
    }
}

fn starts_with_http_scheme(s: &str) -> (r: bool)
    ensures
        r == has_http_scheme(s@),
{
    proof {
        reveal_strlit("http://");
        reveal_strlit("https://");
    }
    let n = s.unicode_len();
    if n >= 7 {
        let head = s.substring_char(0, 7);
        if crate::text::str_eq(head, "http://") {
            return true;
        }
    }
    if n >= 8 {
        let head = s.substring_char(0, 8);
        if crate::text::str_eq(head, "https://") {
            return true;
        }
    }
    false
}

/// End-user IP address (`ip`), held in its canonical textual form.
///
/// Invariant: non-empty after trimming. The caller supplies the rendering of
/// an already-parsed address; this type only carries it to the form encoder.
#[derive(Debug, Clone, PartialEq, Eq, Hash)]
pub struct IpAddress(String);

impl View for IpAddress {
    type V = Seq<char>;

    closed spec fn view(&self) -> Seq<char> {
        self.0@
    }
}

impl IpAddress {
    /// Form field name used by SMS.RU (`ip`).
    pub const FIELD: &'static str = "ip";

    /// Create a validated [`IpAddress`], trimming surrounding whitespace.
    pub fn new(value: &str) -> (r: Result<Self, ValidationError>)
        ensures
            match r {
                Ok(a) => !blank(value@) && a@ == trim_spec(value@),
                Err(e) => blank(value@) && (e matches ValidationError::Empty { field } && field@
                    == "ip"@),
            },
    {
        let trimmed = trim_str(value);
        if trimmed.as_str().unicode_len() == 0 {
            return Err(ValidationError::Empty { field: Self::FIELD });
        }
        Ok(Self(trimmed))
    }

    /// Borrow the textual address.
    pub fn as_str(&self) -> (r: &str)
        ensures
            r@ == self@,
    {
        self.0.as_str()
    }
}

/// Unix timestamp in seconds (`time`), used by SMS.RU for scheduled sends.
#[derive(Debug, Clone, Copy, PartialEq, Eq, Structural, Hash)]
pub struct UnixTimestamp(u64);

impl View for UnixTimestamp {
    type V = u64;

    closed spec fn view(&self) -> u64 {
        self.0
    }
}

impl UnixTimestamp {
    /// Form field name used by SMS.RU (`time`).
    pub const FIELD: &'static str = "time";

    /// Create a timestamp value (no range validation is performed).
    pub fn new(value: u64) -> (r: Self)
        ensures
            r@ == value,
    {
        Self(value)
    }

    /// Get the underlying timestamp in seconds.
    pub fn value(self) -> (r: u64)
        ensures
            r == self@,
    {
        self.0
    }
}

/// TTL (time-to-live) for delivery attempts in minutes (`ttl`).
///
/// Invariant: `1..=1440`.
#[derive(Debug, Clone, Copy, PartialEq, Eq, Structural, Hash)]
pub struct TtlMinutes(u16);

impl View for TtlMinutes {
    type V = u16;

    closed spec fn view(&self) -> u16 {
        self.0
    }
}

impl TtlMinutes {
    /// Form field name used by SMS.RU (`ttl`).
    pub const FIELD: &'static str = "ttl";

    /// Minimum allowed TTL value.
    pub const MIN: u16 = 1;

    /// Maximum allowed TTL value.
    pub const MAX: u16 = 1440;

    /// Create a validated TTL value.
    pub fn new(value: u16) -> (r: Result<Self, ValidationError>)
        ensures
            match r {
                Ok(t) => 1 <= value <= 1440 && t@ == value,
                Err(e) => !(1 <= value <= 1440) && (e matches ValidationError::TtlOutOfRange {
                    min: 1,
                    max: 1440,
                    actual,
                } && actual == value),
            },
    {
        if value < Self::MIN || value > Self::MAX {
            return Err(
                ValidationError::TtlOutOfRange { min: Self::MIN, max: Self::MAX, actual: value },
            );
        }
        Ok(Self(value))
    }

    /// Get the underlying TTL value.
    pub fn value(self) -> (r: u16)
        ensures
            r == self@,
    {
        self.0
    }
}

/// SMS.RU status code, preserved as-is even when unknown to this crate.
#[derive(Debug, Clone, Copy, PartialEq, Eq, Structural, Hash)]
pub struct StatusCode(i32);

impl View for StatusCode {
    type V = i32;

    closed spec fn view(&self) -> i32 {
        self.0
    }
}

impl StatusCode {
    /// Construct a status code from its integer representation.
    pub fn new(code: i32) -> (r: Self)
        ensures
            r@ == code,
    {
        Self(code)
    }

    /// Get the integer code as provided by SMS.RU.
    pub fn as_i32(self) -> (r: i32)
        ensures
            r == self@,
    {
        self.0
    }

    /// Map this code to a known status code variant, if one exists.
    pub fn known(self) -> (r: Option<KnownStatusCode>)
        ensures
            r == known_code_of(self@ as int),
    {
        KnownStatusCode::from_code(self.0)
    }

    /// Alias for [`StatusCode::known`].
    pub fn known_kind(self) -> (r: Option<KnownStatusCode>)
        ensures
            r == known_code_of(self@ as int),
    {
        self.known()
    }

    /// Whether this status code is considered retryable by the crate.
    ///
    /// Codes with no known classification report `false`.
    pub fn is_retryable(self) -> (r: bool)
        ensures
            r == (known_code_of(self@ as int) matches Some(k) && retryable_spec(k)),
    {
        match self.known_kind() {
            Some(kind) => kind.is_retryable(),
            None => false,
        }
    }

    /// Whether this status code represents an authentication error.
    ///
    /// Codes with no known classification report `false`.
    pub fn is_auth_error(self) -> (r: bool)
        ensures
            r == (known_code_of(self@ as int) matches Some(k) && auth_error_spec(k)),
    {
        match self.known_kind() {
            Some(kind) => kind.is_auth_error(),
            None => false,
        }
    }
}

/// Call-auth status code returned by `callcheck/status` in `check_status`,
/// preserved as-is even when unknown to this crate.
#[derive(Debug, Clone, Copy, PartialEq, Eq, Structural, Hash)]
pub struct CallCheckStatusCode(i32);

impl View for CallCheckStatusCode {
    type V = i32;

    closed spec fn view(&self) -> i32 {
        self.0
    }
}

impl CallCheckStatusCode {
    /// Construct a call-check status code from its integer representation.
    pub fn new(code: i32) -> (r: Self)
        ensures
            r@ == code,
    {
        Self(code)
    }

    /// Get the integer code as provided by SMS.RU.
    pub fn as_i32(self) -> (r: i32)
        ensures
            r == self@,
    {
        self.0
    }

    /// Map this code to a known call-check status variant, if one exists.
    pub fn known_kind(self) -> (r: Option<KnownCallCheckStatusCode>)
        ensures
            r == known_call_check_code_of(self@ as int),
    {
        KnownCallCheckStatusCode::from_code(self.0)
    }
}

/// Known `check_status` values for `callcheck/status`.
#[derive(Debug, Clone, Copy, PartialEq, Eq, Structural, Hash)]
#[non_exhaustive]
pub enum KnownCallCheckStatusCode {
    NotConfirmedYet,
    Confirmed,
    ExpiredOrInvalidCheckId,
}

/// The documented meaning of a call-check status code, if any.
pub open spec fn known_call_check_code_of(code: int) -> Option<KnownCallCheckStatusCode> {
    if code == 400 {
        Some(KnownCallCheckStatusCode::NotConfirmedYet)
    } else if code == 401 {
        Some(KnownCallCheckStatusCode::Confirmed)
    } else if code == 402 {
        Some(KnownCallCheckStatusCode::ExpiredOrInvalidCheckId)
    } else {
        None
    }
}

impl KnownCallCheckStatusCode {
    /// Convert a raw integer call-check status code into a known variant.
    pub fn from_code(code: i32) -> (r: Option<Self>)
        ensures
            r == known_call_check_code_of(code as int),
    {
        match code {
            400 => Some(Self::NotConfirmedYet),
            401 => Some(Self::Confirmed),
            402 => Some(Self::ExpiredOrInvalidCheckId),
            _ => None,
        }
    }
}

/// Known SMS.RU status codes supported by this crate.
///
/// Unknown codes are preserved as [`StatusCode`] and return `None` from
/// [`KnownStatusCode::from_code`].
#[derive(Debug, Clone, Copy, PartialEq, Eq, Structural, Hash)]
#[non_exhaustive]
pub enum KnownStatusCode {
    MessageNotFound,
    RequestOkOrQueued,
    BeingDeliveredToOperator,
    SentInTransit,
    Delivered,
    NotDeliveredTtlExpired,
    NotDeliveredDeletedByOperator,
    NotDeliveredPhoneFailure,
    NotDeliveredUnknown,
    NotDeliveredRejected,
    Read,
    NotDeliveredNoRoute,
    InvalidApiId,
    InsufficientFunds,
    InvalidRecipientOrNoRoute,
    EmptyMessageText,
    SenderNotEnabled,
    MessageTooLong,
    DailyLimitExceeded,
    NoDeliveryRoute,
    InvalidTime,
    RecipientInStopList,
    UsedGetInsteadOfPost,
    MethodNotFound,
    MessageNotUtf8,
    TooManyNumbers,
    RecipientAbroadBlocked,
    RecipientInGlobalStopList,
    ForbiddenWordInText,
    MissingDisclaimerPhrase,
    ServiceTemporarilyUnavailable,
    SenderMustMatchBrand,
    ExceededDailyLimitToNumber,
    ExceededIdenticalPerMinute,
    ExceededIdenticalPerDay,
    ExceededRepeatSendLimit,
    InvalidToken,
    InvalidAuth,
    AccountNotConfirmed,
    ConfirmationCodeWrong,
    TooManyConfirmationCodes,
    TooManyWrongAttempts,
    ServerError,
    LimitIpCountryMismatchCategory1,
    LimitIpCountryMismatchCategory2,
    LimitTooManyToCountry,
    LimitTooManyForeignAuth,
    LimitTooManyFromIp,
    LimitHostingProviderIp,
    InvalidEndUserIp,
    LimitTooManyCalls,
    CountryBlocked,
    CallbackUrlInvalid,
    CallbackHandlerNotFound,
    CallCheckNotConfirmedYet,
    CallCheckConfirmed,
    CallCheckExpiredOrInvalidCheckId,
}

/// The documented meaning of an SMS.RU status code, if any.
pub open spec fn known_code_of(code: int) -> Option<KnownStatusCode> {
    if code == -1 {
        Some(KnownStatusCode::MessageNotFound)
    } else if code == 100 {
        Some(KnownStatusCode::RequestOkOrQueued)
    } else if code == 101 {
        Some(KnownStatusCode::BeingDeliveredToOperator)
    } else if code == 102 {
        Some(KnownStatusCode::SentInTransit)
    } else if code == 103 {
        Some(KnownStatusCode::Delivered)
    } else if code == 104 {
        Some(KnownStatusCode::NotDeliveredTtlExpired)
    } else if code == 105 {
        Some(KnownStatusCode::NotDeliveredDeletedByOperator)
    } else if code == 106 {
        Some(KnownStatusCode::NotDeliveredPhoneFailure)
    } else if code == 107 {
        Some(KnownStatusCode::NotDeliveredUnknown)
    } else if code == 108 {
        Some(KnownStatusCode::NotDeliveredRejected)
    } else if code == 110 {
        Some(KnownStatusCode::Read)
    } else if code == 150 {
        Some(KnownStatusCode::NotDeliveredNoRoute)
    } else if code == 200 {
        Some(KnownStatusCode::InvalidApiId)
    } else if code == 201 {
        Some(KnownStatusCode::InsufficientFunds)
    } else if code == 202 {
        Some(KnownStatusCode::InvalidRecipientOrNoRoute)
    } else if code == 203 {
        Some(KnownStatusCode::EmptyMessageText)
    } else if code == 204 {
        Some(KnownStatusCode::SenderNotEnabled)
    } else if code == 205 {
        Some(KnownStatusCode::MessageTooLong)
    } else if code == 206 {
        Some(KnownStatusCode::DailyLimitExceeded)
    } else if code == 207 {
        Some(KnownStatusCode::NoDeliveryRoute)
    } else if code == 208 {
        Some(KnownStatusCode::InvalidTime)
    } else if code == 209 {
        Some(KnownStatusCode::RecipientInStopList)
    } else if code == 210 {
        Some(KnownStatusCode::UsedGetInsteadOfPost)
    } else if code == 211 {
        Some(KnownStatusCode::MethodNotFound)
    } else if code == 212 {
        Some(KnownStatusCode::MessageNotUtf8)
    } else if code == 213 {
        Some(KnownStatusCode::TooManyNumbers)
    } else if code == 214 {
        Some(KnownStatusCode::RecipientAbroadBlocked)
    } else if code == 215 {
        Some(KnownStatusCode::RecipientInGlobalStopList)
    } else if code == 216 {
        Some(KnownStatusCode::ForbiddenWordInText)
    } else if code == 217 {
        Some(KnownStatusCode::MissingDisclaimerPhrase)
    } else if code == 220 {
        Some(KnownStatusCode::ServiceTemporarilyUnavailable)
    } else if code == 221 {
        Some(KnownStatusCode::SenderMustMatchBrand)
    } else if code == 230 {
        Some(KnownStatusCode::ExceededDailyLimitToNumber)
    } else if code == 231 {
        Some(KnownStatusCode::ExceededIdenticalPerMinute)
    } else if code == 232 {
        Some(KnownStatusCode::ExceededIdenticalPerDay)
    } else if code == 233 {
        Some(KnownStatusCode::ExceededRepeatSendLimit)
    } else if code == 300 {
        Some(KnownStatusCode::InvalidToken)
    } else if code == 301 {
        Some(KnownStatusCode::InvalidAuth)
    } else if code == 302 {
        Some(KnownStatusCode::AccountNotConfirmed)
    } else if code == 303 {
        Some(KnownStatusCode::ConfirmationCodeWrong)
    } else if code == 304 {
        Some(KnownStatusCode::TooManyConfirmationCodes)
    } else if code == 305 {
        Some(KnownStatusCode::TooManyWrongAttempts)
    } else if code == 500 {
        Some(KnownStatusCode::ServerError)
    } else if code == 501 {
        Some(KnownStatusCode::LimitIpCountryMismatchCategory1)
    } else if code == 502 {
        Some(KnownStatusCode::LimitIpCountryMismatchCategory2)
    } else if code == 503 {
        Some(KnownStatusCode::LimitTooManyToCountry)
    } else if code == 504 {
        Some(KnownStatusCode::LimitTooManyForeignAuth)
    } else if code == 505 {
        Some(KnownStatusCode::LimitTooManyFromIp)
    } else if code == 506 {
        Some(KnownStatusCode::LimitHostingProviderIp)
    } else if code == 507 {
        Some(KnownStatusCode::InvalidEndUserIp)
    } else if code == 508 {
        Some(KnownStatusCode::LimitTooManyCalls)
    } else if code == 550 {
        Some(KnownStatusCode::CountryBlocked)
    } else if code == 901 {
        Some(KnownStatusCode::CallbackUrlInvalid)
    } else if code == 902 {
        Some(KnownStatusCode::CallbackHandlerNotFound)
    } else if code == 400 {
        Some(KnownStatusCode::CallCheckNotConfirmedYet)
    } else if code == 401 {
        Some(KnownStatusCode::CallCheckConfirmed)
    } else if code == 402 {
        Some(KnownStatusCode::CallCheckExpiredOrInvalidCheckId)
    } else {
        None
    }
}

/// Whether a known status is likely transient and worth retrying.
pub open spec fn retryable_spec(k: KnownStatusCode) -> bool {
    ||| k is ServiceTemporarilyUnavailable
    ||| k is TooManyConfirmationCodes
    ||| k is TooManyWrongAttempts
    ||| k is ServerError
}

/// Whether a known status indicates invalid or expired credentials.
pub open spec fn auth_error_spec(k: KnownStatusCode) -> bool {
    ||| k is InvalidApiId
    ||| k is InvalidToken
    ||| k is InvalidAuth
    ||| k is AccountNotConfirmed
}

impl KnownStatusCode {
    /// Convert a raw SMS.RU integer code into a known variant.
    pub fn from_code(code: i32) -> (r: Option<Self>)
        ensures
            r == known_code_of(code as int),
    {
        match code {
            -1 => Some(Self::MessageNotFound),
            100 => Some(Self::RequestOkOrQueued),
            101 => Some(Self::BeingDeliveredToOperator),
            102 => Some(Self::SentInTransit),
            103 => Some(Self::Delivered),
            104 => Some(Self::NotDeliveredTtlExpired),
            105 => Some(Self::NotDeliveredDeletedByOperator),
            106 => Some(Self::NotDeliveredPhoneFailure),
            107 => Some(Self::NotDeliveredUnknown),
            108 => Some(Self::NotDeliveredRejected),
            110 => Some(Self::Read),
            150 => Some(Self::NotDeliveredNoRoute),
            200 => Some(Self::InvalidApiId),
            201 => Some(Self::InsufficientFunds),
            202 => Some(Self::InvalidRecipientOrNoRoute),
            203 => Some(Self::EmptyMessageText),
            204 => Some(Self::SenderNotEnabled),
            205 => Some(Self::MessageTooLong),
            206 => Some(Self::DailyLimitExceeded),
            207 => Some(Self::NoDeliveryRoute),
            208 => Some(Self::InvalidTime),
            209 => Some(Self::RecipientInStopList),
            210 => Some(Self::UsedGetInsteadOfPost),
            211 => Some(Self::MethodNotFound),
            212 => Some(Self::MessageNotUtf8),
            213 => Some(Self::TooManyNumbers),
            214 => Some(Self::RecipientAbroadBlocked),
            215 => Some(Self::RecipientInGlobalStopList),
            216 => Some(Self::ForbiddenWordInText),
            217 => Some(Self::MissingDisclaimerPhrase),
            220 => Some(Self::ServiceTemporarilyUnavailable),
            221 => Some(Self::SenderMustMatchBrand),
            230 => Some(Self::ExceededDailyLimitToNumber),
            231 => Some(Self::ExceededIdenticalPerMinute),
            232 => Some(Self::ExceededIdenticalPerDay),
            233 => Some(Self::ExceededRepeatSendLimit),
            300 => Some(Self::InvalidToken),
            301 => Some(Self::InvalidAuth),
            302 => Some(Self::AccountNotConfirmed),
            303 => Some(Self::ConfirmationCodeWrong),
            304 => Some(Self::TooManyConfirmationCodes),
            305 => Some(Self::TooManyWrongAttempts),
            500 => Some(Self::ServerError),
            501 => Some(Self::LimitIpCountryMismatchCategory1),
            502 => Some(Self::LimitIpCountryMismatchCategory2),
            503 => Some(Self::LimitTooManyToCountry),
            504 => Some(Self::LimitTooManyForeignAuth),
            505 => Some(Self::LimitTooManyFromIp),
            506 => Some(Self::LimitHostingProviderIp),
            507 => Some(Self::InvalidEndUserIp),
            508 => Some(Self::LimitTooManyCalls),
            550 => Some(Self::CountryBlocked),
            901 => Some(Self::CallbackUrlInvalid),
            902 => Some(Self::CallbackHandlerNotFound),
            400 => Some(Self::CallCheckNotConfirmedYet),
            401 => Some(Self::CallCheckConfirmed),
            402 => Some(Self::CallCheckExpiredOrInvalidCheckId),
            _ => None,
        }
    }

    /// Whether this status is likely transient and can be retried.
    pub fn is_retryable(self) -> (r: bool)
        ensures
            r == retryable_spec(self),
    {
        match self {
            Self::ServiceTemporarilyUnavailable => true,
            Self::TooManyConfirmationCodes => true,
            Self::TooManyWrongAttempts => true,
            Self::ServerError => true,
            _ => false,
        }
    }

    /// Whether this status indicates invalid or expired credentials.
    pub fn is_auth_error(self) -> (r: bool)
        ensures
            r == auth_error_spec(self),
    {
        match self {
            Self::InvalidApiId => true,
            Self::InvalidToken => true,
            Self::InvalidAuth => true,
            Self::AccountNotConfirmed => true,
            _ => false,
        }
    }
}

/// The E.164 text that parsing yields for a region hint and an input, or
/// nothing where the input is no parseable phone number. Named here because
/// the parse consults the bundled numbering metadata; it depends on the
/// region and the text alone.
pub uninterp spec fn e164_of(region: Option<Seq<char>>, input: Seq<char>) -> Option<Seq<char>>;

/// The view of an optional region code.
pub open spec fn opt_str_view(o: Option<&str>) -> Option<Seq<char>> {
    match o {
        Some(s) => Some(s@),
        None => None,
    }
}

/// Relies on `phonenumber::parse` and `phonenumber::format` in E.164 mode
/// (with `str::parse::<phonenumber::country::Id>` for the region hint): the
/// outcome is a function of the region and the input text.
#[verifier::external_body]
fn phone_e164(region: Option<&str>, input: &str) -> (r: Option<String>)
    ensures
        match r {
            Some(e) => e164_of(opt_str_view(region), input@) == Some(e@),
            None => e164_of(opt_str_view(region), input@) is None,
        },
{
    let id = match region {
        Some(r) => match r.parse::<phonenumber::country::Id>() {
            Ok(id) => Some(id),
            Err(_) => return None,
        },
        None => None,
    };
    match phonenumber::parse(id, input) {
        Ok(p) => Some(phonenumber::format(&p).mode(phonenumber::Mode::E164).to_string()),
        Err(_) => None,
    }
}

/// Parsed phone number with an E.164 representation.
///
/// Equality is based on the E.164 form.
#[derive(Debug, Clone)]
pub struct PhoneNumber {
    raw: String,
    e164: String,
}

impl PhoneNumber {
    /// Form field name used by SMS.RU (`to`).
    pub const FIELD: &'static str = "to";

    /// The trimmed input, in spec form.
    pub closed spec fn raw_view(&self) -> Seq<char> {
        self.raw@
    }

    /// The normalized E.164 text, in spec form.
    pub closed spec fn e164_view(&self) -> Seq<char> {
        self.e164@
    }

    /// Parse and normalize a phone number into E.164.
    ///
    /// `default_region` is a two-letter region code (such as `RU`) used when
    /// the input carries no explicit country prefix.
    pub fn parse(default_region: Option<&str>, input: &str) -> (r: Result<Self, ValidationError>)
        ensures
            match r {
                Ok(p) => !blank(input@) && p.raw_view() == trim_spec(input@) && e164_of(
                    opt_str_view(default_region),
                    trim_spec(input@),
                ) == Some(p.e164_view()),
                Err(e) => match e {
                    ValidationError::Empty { field } => blank(input@) && field@ == "to"@,
                    ValidationError::InvalidPhoneNumber { input: bad } => !blank(input@)
                        && e164_of(opt_str_view(default_region), trim_spec(input@)) is None
                        && bad@ == trim_spec(input@),
                    _ => false,
                },
            },
    {
        let raw = trim_str(input);
        if raw.as_str().unicode_len() == 0 {
            return Err(ValidationError::Empty { field: Self::FIELD });
        }
        match phone_e164(default_region, raw.as_str()) {
            Some(e164) => Ok(Self { raw, e164 }),
            None => Err(ValidationError::InvalidPhoneNumber { input: raw }),
        }
    }

    /// Raw input after trimming.
    pub fn raw(&self) -> (r: &str)
        ensures
            r@ == self.raw_view(),
    {
        self.raw.as_str()
    }

    /// Normalized E.164 representation.
    pub fn e164(&self) -> (r: &str)
        ensures
            r@ == self.e164_view(),
    {
        self.e164.as_str()
    }
}

impl PartialEq for PhoneNumber {
    /// Phone numbers compare by their E.164 text.
    fn eq(&self, other: &Self) -> (r: bool) {
        crate::text::str_eq(self.e164.as_str(), other.e164.as_str())
    }
}

impl vstd::std_specs::cmp::PartialEqSpecImpl for PhoneNumber {
    open spec fn obeys_eq_spec() -> bool {
        true
    }

    open spec fn eq_spec(&self, other: &Self) -> bool {
        self.e164_view() == other.e164_view()
    }
}

impl Eq for PhoneNumber {

}

impl From<PhoneNumber> for RawPhoneNumber {
    /// Convert an already-parsed phone number to its E.164 raw value.
    fn from(value: PhoneNumber) -> (r: Self) {
        RawPhoneNumber(value.e164)
    }
}

impl vstd::std_specs::convert::FromSpecImpl<PhoneNumber> for RawPhoneNumber {
    open spec fn obeys_from_spec() -> bool {
        true
    }

    closed spec fn from_spec(t: PhoneNumber) -> Self {
        RawPhoneNumber(t.e164)
    }
}

} // verus!
