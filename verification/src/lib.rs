//! Typed client library for the SMS.RU HTTP API.
//!
//! The crate is organised as a domain layer of validated value types, a
//! wire-mapping layer that encodes requests as form fields and decodes JSON
//! response bodies into typed results, and a thin evaluation layer that turns
//! a raw HTTP exchange into a client-visible outcome.

pub mod account;
pub mod callback;
pub mod callcheck;
pub mod check_cost;
pub mod check_status;
pub mod client;
pub mod decode;
pub mod error;
pub mod form;
pub mod json;
pub mod laws;
pub mod lookup;
pub mod money;
pub mod request;
pub mod response;
pub mod send_sms;
pub mod stoplist;
pub mod text;
pub mod validation;
pub mod value;

pub use client::{Auth, SmsRuError};
pub use error::TransportError;
pub use money::TransportMoney;
pub use request::{AddCallback, AddStoplistEntry, CHECK_COST_MAX_RECIPIENTS,
    CHECK_STATUS_MAX_SMS_IDS, CheckCallAuthStatus, CheckCallAuthStatusOptions, CheckCost,
    CheckCostOptions, CheckStatus, CostPerRecipient, CostToMany, JsonMode, PerRecipient,
    RemoveCallback, RemoveStoplistEntry, SEND_SMS_MAX_RECIPIENTS, SendOptions, SendSms,
    StartCallAuth, StartCallAuthOptions, ToMany};
pub use response::{BalanceResponse, CallbacksResponse, CheckCallAuthStatusResponse,
    CheckCostResponse, CheckStatusResponse, FreeUsageResponse, LimitUsageResponse,
    SendSmsResponse, SendersResponse, SmsCostResult, SmsResult, SmsStatusResult,
    StartCallAuthResponse, StatusOnlyResponse, StoplistResponse};
pub use validation::ValidationError;
pub use value::{ApiId, CallCheckId, CallCheckStatusCode, CallbackUrl, IpAddress,
    KnownCallCheckStatusCode, KnownStatusCode, Login, MessageText, PartnerId, Password,
    PhoneNumber, RawPhoneNumber, SenderId, SmsId, StatusCode, StoplistText, TtlMinutes,
    UnixTimestamp};

use vstd::prelude::*;

verus! {

/// Top-level status marker used by SMS.RU responses.
#[derive(Debug, Clone, Copy, PartialEq, Eq, Structural)]
pub enum Status {
    /// Request or operation succeeded (the wire literal `OK`).
    Okay,
    /// Request or operation failed (the wire literal `ERROR`).
    Error,
}

} // verus!
