//! Typed response envelopes, each with a mathematical model used by the
//! decoder contracts.
//!
//! Per-item results are kept as vectors of `(identifier, result)` pairs in
//! the order the response object listed them; the `*_for` methods look a
//! result up by identifier.

use vstd::prelude::*;

use crate::Status;
use crate::text::str_eq;
use crate::value::{CallCheckId, CallCheckStatusCode, CallbackUrl, RawPhoneNumber, SmsId,
    StatusCode};

verus! {

/// The view of an optional owned string.
pub open spec fn opt_text(o: Option<String>) -> Option<Seq<char>> {
    match o {
        Some(s) => Some(s@),
        None => None,
    }
}

/// Copy an optional string, preserving its text.
pub fn clone_opt_string(o: &Option<String>) -> (r: Option<String>)
    ensures
        opt_text(r) == opt_text(*o),
{
    match o {
        Some(s) => Some(s.clone()),
        None => None,
    }
}

/// The first result listed for identifier `k`, if any.
pub open spec fn lookup_item<M>(s: Seq<(Seq<char>, M)>, k: Seq<char>) -> Option<M>
    decreases s.len(),
{
    if s.len() == 0 {
        None
    } else if s[0].0 == k {
        Some(s[0].1)
    } else {
        lookup_item(s.drop_first(), k)
    }
}

/// Result for a single recipient in the SMS.RU send response.
#[derive(Debug, PartialEq, Eq)]
pub struct SmsResult {
    /// Per-recipient status.
    pub status: Status,
    /// Per-recipient status code.
    pub status_code: StatusCode,
    /// Optional per-recipient status text.
    pub status_text: Option<String>,
    /// Optional SMS id assigned by SMS.RU.
    pub sms_id: Option<String>,
}

impl Clone for SmsResult {
    /// The copy carries the same data.
    fn clone(&self) -> (r: Self)
        ensures
            r@ == self@,
    {
        SmsResult {
            status: self.status,
            status_code: self.status_code,
            status_text: clone_opt_string(&self.status_text),
            sms_id: clone_opt_string(&self.sms_id),
        }
    }
}

/// The mathematical form of an [`SmsResult`].
pub struct SmsResultModel {
    pub status: Status,
    pub status_code: i32,
    pub status_text: Option<Seq<char>>,
    pub sms_id: Option<Seq<char>>,
}

impl View for SmsResult {
    type V = SmsResultModel;

    open spec fn view(&self) -> SmsResultModel {
        SmsResultModel {
            status: self.status,
            status_code: self.status_code@,
            status_text: opt_text(self.status_text),
            sms_id: opt_text(self.sms_id),
        }
    }
}

/// Parsed response from the SMS.RU "send SMS" API.
#[derive(Debug, Clone, PartialEq)]
pub struct SendSmsResponse {
    /// Top-level response status.
    pub status: Status,
    /// SMS.RU status code (known and unknown preserved).
    pub status_code: StatusCode,
    /// Optional status text provided by SMS.RU.
    pub status_text: Option<String>,
    /// Account balance as returned by SMS.RU, its text preserved exactly.
    pub balance: Option<String>,
    /// Per-recipient results, keyed by the request's phone number.
    pub sms: Vec<(RawPhoneNumber, SmsResult)>,
}

/// The mathematical form of a [`SendSmsResponse`].
pub struct SendSmsResponseModel {
    pub status: Status,
    pub status_code: i32,
    pub status_text: Option<Seq<char>>,
    pub balance: Option<Seq<char>>,
    pub sms: Seq<(Seq<char>, SmsResultModel)>,
}

impl View for SendSmsResponse {
    type V = SendSmsResponseModel;

    open spec fn view(&self) -> SendSmsResponseModel {
        SendSmsResponseModel {
            status: self.status,
            status_code: self.status_code@,
            status_text: opt_text(self.status_text),
            balance: opt_text(self.balance),
            sms: self.sms@.map_values(|p: (RawPhoneNumber, SmsResult)| (p.0@, p.1@)),
        }
    }
}

impl SendSmsResponse {
    /// The result recorded for `phone`, if any.
    #[verifier::loop_isolation(false)]
    pub fn sms_for(&self, phone: &RawPhoneNumber) -> (r: Option<&SmsResult>)
        ensures
            match r {
                Some(x) => lookup_item(self@.sms, phone@) == Some(x@),
                None => lookup_item(self@.sms, phone@) is None,
            },
    {
        let ghost sv = self@.sms;
        let mut i: usize = 0;
        proof {
            assert(sv.skip(0) =~= sv);
        }
        while i < self.sms.len()
            invariant
                0 <= i <= self.sms@.len(),
                sv == self@.sms,
                lookup_item(sv, phone@) == lookup_item(sv.skip(i as int), phone@),
            decreases self.sms@.len() - i,
        {
            proof {
                assert(sv.skip(i as int)[0] == sv[i as int]);
                assert(sv.skip(i as int).drop_first() =~= sv.skip(i + 1));
            }
            if str_eq(self.sms[i].0.raw(), phone.raw()) {
                return Some(&self.sms[i].1);
            }
            i = i + 1;
        }
        proof {
            assert(sv.skip(sv.len() as int) =~= Seq::<(Seq<char>, SmsResultModel)>::empty());
        }
        None
    }
}

/// Result for a single sms id in the SMS.RU status response.
#[derive(Debug, PartialEq, Eq)]
pub struct SmsStatusResult {
    /// Per-id status.
    pub status: Status,
    /// Per-id status code.
    pub status_code: StatusCode,
    /// Optional per-id status text.
    pub status_text: Option<String>,
    /// Optional message cost as returned by SMS.RU, its text preserved.
    pub cost: Option<String>,
}

impl Clone for SmsStatusResult {
    /// The copy carries the same data.
    fn clone(&self) -> (r: Self)
        ensures
            r@ == self@,
    {
        SmsStatusResult {
            status: self.status,
            status_code: self.status_code,
            status_text: clone_opt_string(&self.status_text),
            cost: clone_opt_string(&self.cost),
        }
    }
}

/// The mathematical form of an [`SmsStatusResult`].
pub struct SmsStatusResultModel {
    pub status: Status,
    pub status_code: i32,
    pub status_text: Option<Seq<char>>,
    pub cost: Option<Seq<char>>,
}

impl View for SmsStatusResult {
    type V = SmsStatusResultModel;

    open spec fn view(&self) -> SmsStatusResultModel {
        SmsStatusResultModel {
            status: self.status,
            status_code: self.status_code@,
            status_text: opt_text(self.status_text),
            cost: opt_text(self.cost),
        }
    }
}

/// Parsed response from the SMS.RU "check status" API.
#[derive(Debug, Clone, PartialEq)]
pub struct CheckStatusResponse {
    /// Top-level response status.
    pub status: Status,
    /// SMS.RU status code (known and unknown preserved).
    pub status_code: StatusCode,
    /// Optional status text provided by SMS.RU.
    pub status_text: Option<String>,
    /// Account balance as returned by SMS.RU, its text preserved exactly.
    pub balance: Option<String>,
    /// Per-id status results, keyed by the queried sms id.
    pub sms: Vec<(SmsId, SmsStatusResult)>,
}

/// The mathematical form of a [`CheckStatusResponse`].
pub struct CheckStatusResponseModel {
    pub status: Status,
    pub status_code: i32,
    pub status_text: Option<Seq<char>>,
    pub balance: Option<Seq<char>>,
    pub sms: Seq<(Seq<char>, SmsStatusResultModel)>,
}

impl View for CheckStatusResponse {
    type V = CheckStatusResponseModel;

    open spec fn view(&self) -> CheckStatusResponseModel {
        CheckStatusResponseModel {
            status: self.status,
            status_code: self.status_code@,
            status_text: opt_text(self.status_text),
            balance: opt_text(self.balance),
            sms: self.sms@.map_values(|p: (SmsId, SmsStatusResult)| (p.0@, p.1@)),
        }
    }
}

impl CheckStatusResponse {
    /// The result recorded for `sms_id`, if any.
    #[verifier::loop_isolation(false)]
    pub fn sms_for(&self, sms_id: &SmsId) -> (r: Option<&SmsStatusResult>)
        ensures
            match r {
                Some(x) => lookup_item(self@.sms, sms_id@) == Some(x@),
                None => lookup_item(self@.sms, sms_id@) is None,
            },
    {
        let ghost sv = self@.sms;
        let mut i: usize = 0;
        proof {
            assert(sv.skip(0) =~= sv);
        }
        while i < self.sms.len()
            invariant
                0 <= i <= self.sms@.len(),
                sv == self@.sms,
                lookup_item(sv, sms_id@) == lookup_item(sv.skip(i as int), sms_id@),
            decreases self.sms@.len() - i,
        {
            proof {
                assert(sv.skip(i as int)[0] == sv[i as int]);
                assert(sv.skip(i as int).drop_first() =~= sv.skip(i + 1));
            }
            if str_eq(self.sms[i].0.as_str(), sms_id.as_str()) {
                return Some(&self.sms[i].1);
            }
            i = i + 1;
        }
        proof {
            assert(sv.skip(sv.len() as int) =~= Seq::<(Seq<char>, SmsStatusResultModel)>::empty());
        }
        None
    }
}

/// Result for a single recipient in the SMS.RU cost response.
#[derive(Debug, PartialEq, Eq)]
pub struct SmsCostResult {
    /// Per-recipient status.
    pub status: Status,
    /// Per-recipient status code.
    pub status_code: StatusCode,
    /// Optional per-recipient status text.
    pub status_text: Option<String>,
    /// Optional per-recipient message cost, its text preserved.
    pub cost: Option<String>,
    /// Optional per-recipient SMS segment count.
    pub sms: Option<u32>,
}

impl Clone for SmsCostResult {
    /// The copy carries the same data.
    fn clone(&self) -> (r: Self)
        ensures
            r@ == self@,
    {
        SmsCostResult {
            status: self.status,
            status_code: self.status_code,
            status_text: clone_opt_string(&self.status_text),
            cost: clone_opt_string(&self.cost),
            sms: self.sms,
        }
    }
}

/// The mathematical form of an [`SmsCostResult`].
pub struct SmsCostResultModel {
    pub status: Status,
    pub status_code: i32,
    pub status_text: Option<Seq<char>>,
    pub cost: Option<Seq<char>>,
    pub sms: Option<u32>,
}

impl View for SmsCostResult {
    type V = SmsCostResultModel;

    open spec fn view(&self) -> SmsCostResultModel {
        SmsCostResultModel {
            status: self.status,
            status_code: self.status_code@,
            status_text: opt_text(self.status_text),
            cost: opt_text(self.cost),
            sms: self.sms,
        }
    }
}

/// Parsed response from the SMS.RU "check cost" API.
#[derive(Debug, Clone, PartialEq)]
pub struct CheckCostResponse {
    /// Top-level response status.
    pub status: Status,
    /// SMS.RU status code (known and unknown preserved).
    pub status_code: StatusCode,
    /// Optional status text provided by SMS.RU.
    pub status_text: Option<String>,
    /// Total request cost as returned by SMS.RU, its text preserved exactly.
    pub total_cost: Option<String>,
    /// Total number of SMS segments as returned by SMS.RU.
    pub total_sms: Option<u32>,
    /// Per-recipient cost results, keyed by the request's phone number.
    pub sms: Vec<(RawPhoneNumber, SmsCostResult)>,
}

/// The mathematical form of a [`CheckCostResponse`].
pub struct CheckCostResponseModel {
    pub status: Status,
    pub status_code: i32,
    pub status_text: Option<Seq<char>>,
    pub total_cost: Option<Seq<char>>,
    pub total_sms: Option<u32>,
    pub sms: Seq<(Seq<char>, SmsCostResultModel)>,
}

impl View for CheckCostResponse {
    type V = CheckCostResponseModel;

    open spec fn view(&self) -> CheckCostResponseModel {
        CheckCostResponseModel {
            status: self.status,
            status_code: self.status_code@,
            status_text: opt_text(self.status_text),
            total_cost: opt_text(self.total_cost),
            total_sms: self.total_sms,
            sms: self.sms@.map_values(|p: (RawPhoneNumber, SmsCostResult)| (p.0@, p.1@)),
        }
    }
}

impl CheckCostResponse {
    /// The result recorded for `phone`, if any.
    #[verifier::loop_isolation(false)]
    pub fn sms_for(&self, phone: &RawPhoneNumber) -> (r: Option<&SmsCostResult>)
        ensures
            match r {
                Some(x) => lookup_item(self@.sms, phone@) == Some(x@),
                None => lookup_item(self@.sms, phone@) is None,
            },
    {
        let ghost sv = self@.sms;
        let mut i: usize = 0;
        proof {
            assert(sv.skip(0) =~= sv);
        }
        while i < self.sms.len()
            invariant
                0 <= i <= self.sms@.len(),
                sv == self@.sms,
                lookup_item(sv, phone@) == lookup_item(sv.skip(i as int), phone@),
            decreases self.sms@.len() - i,
        {
            proof {
                assert(sv.skip(i as int)[0] == sv[i as int]);
                assert(sv.skip(i as int).drop_first() =~= sv.skip(i + 1));
            }
            if str_eq(self.sms[i].0.raw(), phone.raw()) {
                return Some(&self.sms[i].1);
            }
            i = i + 1;
        }
        proof {
            assert(sv.skip(sv.len() as int) =~= Seq::<(Seq<char>, SmsCostResultModel)>::empty());
        }
        None
    }
}

/// Parsed response from the SMS.RU "start call authentication" API.
#[derive(Debug, Clone, PartialEq, Eq)]
pub struct StartCallAuthResponse {
    /// Top-level response status.
    pub status: Status,
    /// SMS.RU status code (known and unknown preserved).
    pub status_code: StatusCode,
    /// Optional status text provided by SMS.RU.
    pub status_text: Option<String>,
    /// Call-check id used for status polling.
    pub check_id: Option<CallCheckId>,
    /// Number the user must call to confirm ownership.
    pub call_phone: Option<RawPhoneNumber>,
    /// Human-readable call number.
    pub call_phone_pretty: Option<String>,
    /// HTML `callto:` link.
    pub call_phone_html: Option<String>,
}

/// The mathematical form of a [`StartCallAuthResponse`].
pub struct StartCallAuthResponseModel {
    pub status: Status,
    pub status_code: i32,
    pub status_text: Option<Seq<char>>,
    pub check_id: Option<Seq<char>>,
    pub call_phone: Option<Seq<char>>,
    pub call_phone_pretty: Option<Seq<char>>,
    pub call_phone_html: Option<Seq<char>>,
}

/// The view of an optional call-check id.
pub open spec fn opt_check_id(o: Option<CallCheckId>) -> Option<Seq<char>> {
    match o {
        Some(s) => Some(s@),
        None => None,
    }
}

/// The view of an optional phone number.
pub open spec fn opt_phone(o: Option<RawPhoneNumber>) -> Option<Seq<char>> {
    match o {
        Some(s) => Some(s@),
        None => None,
    }
}

impl View for StartCallAuthResponse {
    type V = StartCallAuthResponseModel;

    open spec fn view(&self) -> StartCallAuthResponseModel {
        StartCallAuthResponseModel {
            status: self.status,
            status_code: self.status_code@,
            status_text: opt_text(self.status_text),
            check_id: opt_check_id(self.check_id),
            call_phone: opt_phone(self.call_phone),
            call_phone_pretty: opt_text(self.call_phone_pretty),
            call_phone_html: opt_text(self.call_phone_html),
        }
    }
}

/// Parsed response from the SMS.RU "check call authentication status" API.
#[derive(Debug, Clone, PartialEq, Eq)]
pub struct CheckCallAuthStatusResponse {
    /// Top-level response status.
    pub status: Status,
    /// SMS.RU status code (known and unknown preserved).
    pub status_code: StatusCode,
    /// Optional status text provided by SMS.RU.
    pub status_text: Option<String>,
    /// Call-check status code (`400`/`401`/`402`, unknown preserved).
    pub check_status: Option<CallCheckStatusCode>,
    /// Optional call-check status description.
    pub check_status_text: Option<String>,
}

/// The mathematical form of a [`CheckCallAuthStatusResponse`].
pub struct CheckCallAuthStatusResponseModel {
    pub status: Status,
    pub status_code: i32,
    pub status_text: Option<Seq<char>>,
    pub check_status: Option<i32>,
    pub check_status_text: Option<Seq<char>>,
}

/// The view of an optional call-check status code.
pub open spec fn opt_call_code(o: Option<CallCheckStatusCode>) -> Option<i32> {
    match o {
        Some(c) => Some(c@),
        None => None,
    }
}

impl View for CheckCallAuthStatusResponse {
    type V = CheckCallAuthStatusResponseModel;

    open spec fn view(&self) -> CheckCallAuthStatusResponseModel {
        CheckCallAuthStatusResponseModel {
            status: self.status,
            status_code: self.status_code@,
            status_text: opt_text(self.status_text),
            check_status: opt_call_code(self.check_status),
            check_status_text: opt_text(self.check_status_text),
        }
    }
}

/// Parsed response from methods that only return top-level status fields.
///
/// This shape is used by `auth/check` and status-only mutation methods in
/// other endpoint families.
#[derive(Debug, Clone, PartialEq, Eq)]
pub struct StatusOnlyResponse {
    /// Top-level response status.
    pub status: Status,
    /// SMS.RU status code (known and unknown preserved).
    pub status_code: StatusCode,
    /// Optional status text provided by SMS.RU.
    pub status_text: Option<String>,
}

/// The mathematical form of a [`StatusOnlyResponse`].
pub struct StatusOnlyResponseModel {
    pub status: Status,
    pub status_code: i32,
    pub status_text: Option<Seq<char>>,
}

impl View for StatusOnlyResponse {
    type V = StatusOnlyResponseModel;

    open spec fn view(&self) -> StatusOnlyResponseModel {
        StatusOnlyResponseModel {
            status: self.status,
            status_code: self.status_code@,
            status_text: opt_text(self.status_text),
        }
    }
}

/// Parsed response from `my/balance`.
#[derive(Debug, Clone, PartialEq, Eq)]
pub struct BalanceResponse {
    /// Top-level response status.
    pub status: Status,
    /// SMS.RU status code (known and unknown preserved).
    pub status_code: StatusCode,
    /// Optional status text provided by SMS.RU.
    pub status_text: Option<String>,
    /// Account balance as returned by SMS.RU, its text preserved exactly.
    pub balance: Option<String>,
}

/// The mathematical form of a [`BalanceResponse`].
pub struct BalanceResponseModel {
    pub status: Status,
    pub status_code: i32,
    pub status_text: Option<Seq<char>>,
    pub balance: Option<Seq<char>>,
}

impl View for BalanceResponse {
    type V = BalanceResponseModel;

    open spec fn view(&self) -> BalanceResponseModel {
        BalanceResponseModel {
            status: self.status,
            status_code: self.status_code@,
            status_text: opt_text(self.status_text),
            balance: opt_text(self.balance),
        }
    }
}

/// Parsed response from `my/free`.
#[derive(Debug, Clone, PartialEq, Eq)]
pub struct FreeUsageResponse {
    /// Top-level response status.
    pub status: Status,
    /// SMS.RU status code (known and unknown preserved).
    pub status_code: StatusCode,
    /// Optional status text provided by SMS.RU.
    pub status_text: Option<String>,
    /// Total number of free messages available for the account's own number.
    pub total_free: Option<u32>,
    /// Number of free messages used today.
    pub used_today: Option<u32>,
}

/// The mathematical form of a [`FreeUsageResponse`].
pub struct FreeUsageResponseModel {
    pub status: Status,
    pub status_code: i32,
    pub status_text: Option<Seq<char>>,
    pub total_free: Option<u32>,
    pub used_today: Option<u32>,
}

impl View for FreeUsageResponse {
    type V = FreeUsageResponseModel;

    open spec fn view(&self) -> FreeUsageResponseModel {
        FreeUsageResponseModel {
            status: self.status,
            status_code: self.status_code@,
            status_text: opt_text(self.status_text),
            total_free: self.total_free,
            used_today: self.used_today,
        }
    }
}

/// Parsed response from `my/limit`.
#[derive(Debug, Clone, PartialEq, Eq)]
pub struct LimitUsageResponse {
    /// Top-level response status.
    pub status: Status,
    /// SMS.RU status code (known and unknown preserved).
    pub status_code: StatusCode,
    /// Optional status text provided by SMS.RU.
    pub status_text: Option<String>,
    /// Daily sending limit configured for the account.
    pub total_limit: Option<u32>,
    /// Number of recipients used today against the daily limit.
    pub used_today: Option<u32>,
}

/// The mathematical form of a [`LimitUsageResponse`].
pub struct LimitUsageResponseModel {
    pub status: Status,
    pub status_code: i32,
    pub status_text: Option<Seq<char>>,
    pub total_limit: Option<u32>,
    pub used_today: Option<u32>,
}

impl View for LimitUsageResponse {
    type V = LimitUsageResponseModel;

    open spec fn view(&self) -> LimitUsageResponseModel {
        LimitUsageResponseModel {
            status: self.status,
            status_code: self.status_code@,
            status_text: opt_text(self.status_text),
            total_limit: self.total_limit,
            used_today: self.used_today,
        }
    }
}

/// Parsed response from `my/senders`.
#[derive(Debug, Clone, PartialEq, Eq)]
pub struct SendersResponse {
    /// Top-level response status.
    pub status: Status,
    /// SMS.RU status code (known and unknown preserved).
    pub status_code: StatusCode,
    /// Optional status text provided by SMS.RU.
    pub status_text: Option<String>,
    /// Approved senders configured in the SMS.RU account.
    pub senders: Vec<String>,
}

/// The mathematical form of a [`SendersResponse`].
pub struct SendersResponseModel {
    pub status: Status,
    pub status_code: i32,
    pub status_text: Option<Seq<char>>,
    pub senders: Seq<Seq<char>>,
}

impl View for SendersResponse {
    type V = SendersResponseModel;

    open spec fn view(&self) -> SendersResponseModel {
        SendersResponseModel {
            status: self.status,
            status_code: self.status_code@,
            status_text: opt_text(self.status_text),
            senders: self.senders.deep_view(),
        }
    }
}

/// Parsed response from `stoplist/get`.
#[derive(Debug, Clone, PartialEq, Eq)]
pub struct StoplistResponse {
    /// Top-level response status.
    pub status: Status,
    /// SMS.RU status code (known and unknown preserved).
    pub status_code: StatusCode,
    /// Optional status text provided by SMS.RU.
    pub status_text: Option<String>,
    /// Stoplist entries: each phone number with its associated note.
    pub stoplist: Vec<(RawPhoneNumber, String)>,
}

/// The mathematical form of a [`StoplistResponse`].
pub struct StoplistResponseModel {
    pub status: Status,
    pub status_code: i32,
    pub status_text: Option<Seq<char>>,
    pub stoplist: Seq<(Seq<char>, Seq<char>)>,
}

impl View for StoplistResponse {
    type V = StoplistResponseModel;

    open spec fn view(&self) -> StoplistResponseModel {
        StoplistResponseModel {
            status: self.status,
            status_code: self.status_code@,
            status_text: opt_text(self.status_text),
            stoplist: self.stoplist@.map_values(|p: (RawPhoneNumber, String)| (p.0@, p.1@)),
        }
    }
}

impl StoplistResponse {
    /// The note recorded for `phone`, if any.
    #[verifier::loop_isolation(false)]
    pub fn note_for(&self, phone: &RawPhoneNumber) -> (r: Option<&String>)
        ensures
            match r {
                Some(x) => lookup_item(self@.stoplist, phone@) == Some(x@),
                None => lookup_item(self@.stoplist, phone@) is None,
            },
    {
        let ghost sv = self@.stoplist;
        let mut i: usize = 0;
        proof {
            assert(sv.skip(0) =~= sv);
        }
        while i < self.stoplist.len()
            invariant
                0 <= i <= self.stoplist@.len(),
                sv == self@.stoplist,
                lookup_item(sv, phone@) == lookup_item(sv.skip(i as int), phone@),
            decreases self.stoplist@.len() - i,
        {
            proof {
                assert(sv.skip(i as int)[0] == sv[i as int]);
                assert(sv.skip(i as int).drop_first() =~= sv.skip(i + 1));
            }
            if str_eq(self.stoplist[i].0.raw(), phone.raw()) {
                return Some(&self.stoplist[i].1);
            }
            i = i + 1;
        }
        proof {
            assert(sv.skip(sv.len() as int) =~= Seq::<(Seq<char>, Seq<char>)>::empty());
        }
        None
    }
}

/// Parsed response from `callback/add`, `callback/del`, and `callback/get`.
#[derive(Debug, Clone, PartialEq, Eq)]
pub struct CallbacksResponse {
    /// Top-level response status.
    pub status: Status,
    /// SMS.RU status code (known and unknown preserved).
    pub status_code: StatusCode,
    /// Optional status text provided by SMS.RU.
    pub status_text: Option<String>,
    /// Configured callback URLs.
    pub callback: Vec<CallbackUrl>,
}

/// The mathematical form of a [`CallbacksResponse`].
pub struct CallbacksResponseModel {
    pub status: Status,
    pub status_code: i32,
    pub status_text: Option<Seq<char>>,
    pub callback: Seq<Seq<char>>,
}

impl View for CallbacksResponse {
    type V = CallbacksResponseModel;

    open spec fn view(&self) -> CallbacksResponseModel {
        CallbacksResponseModel {
            status: self.status,
            status_code: self.status_code@,
            status_text: opt_text(self.status_text),
            callback: self.callback@.map_values(|u: CallbackUrl| u@),
        }
    }
}

} // verus!
