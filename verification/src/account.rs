//! Decoders for the account endpoints: `auth/check`, `my/balance`,
//! `my/free`, `my/limit`, and `my/senders`.

use vstd::prelude::*;

use crate::decode::{count_field_spec, decode_count_field, decode_envelope, envelope_spec,
    money_field_spec, decode_money_field};
use crate::error::{TransportErrModel, TransportError};
use crate::json::{JsonValue, json_text_value, obj_get, parse_json_text};
use crate::response::{BalanceResponse, BalanceResponseModel, FreeUsageResponse,
    FreeUsageResponseModel, LimitUsageResponse, LimitUsageResponseModel, SendersResponse,
    SendersResponseModel, StatusOnlyResponse, StatusOnlyResponseModel};

verus! {

/// The status-only decode: the envelope triple and nothing else.
pub open spec fn decode_status_only_spec(body: Option<JsonValue>) -> Result<
    StatusOnlyResponseModel,
    TransportErrModel,
> {
    match body {
        None => Err(TransportErrModel::Malformed),
        Some(v) => match v {
            JsonValue::Object(fields) => match envelope_spec(fields@) {
                None => Err(TransportErrModel::Malformed),
                Some(t) => Ok(
                    StatusOnlyResponseModel { status: t.0, status_code: t.1, status_text: t.2 },
                ),
            },
            _ => Err(TransportErrModel::Malformed),
        },
    }
}

/// Decode a status-only response body.
pub fn decode_status_only_json_response(json: &str) -> (r: Result<
    StatusOnlyResponse,
    TransportError,
>)
    ensures
        match r {
            Ok(resp) => decode_status_only_spec(json_text_value(json@)) == Ok::<
                StatusOnlyResponseModel,
                TransportErrModel,
            >(resp@),
            Err(e) => decode_status_only_spec(json_text_value(json@)) == Err::<
                StatusOnlyResponseModel,
                TransportErrModel,
            >(e@),
        },
{
    let parsed = match parse_json_text(json) {
        Some(v) => v,
        None => {
            return Err(TransportError::MalformedPayload);
        },
    };
    let envelope = match decode_envelope(&parsed) {
        Some(t) => t,
        None => {
            return Err(TransportError::MalformedPayload);
        },
    };
    Ok(
        StatusOnlyResponse {
            status: envelope.0,
            status_code: envelope.1,
            status_text: envelope.2,
        },
    )
}

/// The balance decode: the envelope triple plus an optional money field.
pub open spec fn decode_balance_spec(body: Option<JsonValue>) -> Result<
    BalanceResponseModel,
    TransportErrModel,
> {
    match body {
        None => Err(TransportErrModel::Malformed),
        Some(v) => match v {
            JsonValue::Object(fields) => match envelope_spec(fields@) {
                None => Err(TransportErrModel::Malformed),
                Some(t) => match money_field_spec(fields@, "balance"@) {
                    None => Err(TransportErrModel::InvalidScalar),
                    Some(balance) => Ok(
                        BalanceResponseModel {
                            status: t.0,
                            status_code: t.1,
                            status_text: t.2,
                            balance,
                        },
                    ),
                },
            },
            _ => Err(TransportErrModel::Malformed),
        },
    }
}

/// Decode a `my/balance` response body; the balance text is preserved
/// exactly as the server wrote it.
pub fn decode_balance_json_response(json: &str) -> (r: Result<BalanceResponse, TransportError>)
    ensures
        match r {
            Ok(resp) => decode_balance_spec(json_text_value(json@)) == Ok::<
                BalanceResponseModel,
                TransportErrModel,
            >(resp@),
            Err(e) => decode_balance_spec(json_text_value(json@)) == Err::<
                BalanceResponseModel,
                TransportErrModel,
            >(e@),
        },
{
    let parsed = match parse_json_text(json) {
        Some(v) => v,
        None => {
            return Err(TransportError::MalformedPayload);
        },
    };
    let envelope = match decode_envelope(&parsed) {
        Some(t) => t,
        None => {
            return Err(TransportError::MalformedPayload);
        },
    };
    let balance = match decode_money_field(&parsed, "balance") {
        Some(b) => b,
        None => {
            return Err(TransportError::InvalidScalar);
        },
    };
    Ok(
        BalanceResponse {
            status: envelope.0,
            status_code: envelope.1,
            status_text: envelope.2,
            balance,
        },
    )
}

/// The free-usage decode: the envelope triple plus two optional counts.
pub open spec fn decode_free_usage_spec(body: Option<JsonValue>) -> Result<
    FreeUsageResponseModel,
    TransportErrModel,
> {
    match body {
        None => Err(TransportErrModel::Malformed),
        Some(v) => match v {
            JsonValue::Object(fields) => match envelope_spec(fields@) {
                None => Err(TransportErrModel::Malformed),
                Some(t) => match count_field_spec(fields@, "total_free"@) {
                    None => Err(TransportErrModel::InvalidScalar),
                    Some(total_free) => match count_field_spec(fields@, "used_today"@) {
                        None => Err(TransportErrModel::InvalidScalar),
                        Some(used_today) => Ok(
                            FreeUsageResponseModel {
                                status: t.0,
                                status_code: t.1,
                                status_text: t.2,
                                total_free,
                                used_today,
                            },
                        ),
                    },
                },
            },
            _ => Err(TransportErrModel::Malformed),
        },
    }
}

/// Decode a `my/free` response body; counts may arrive as numbers or
/// strings.
pub fn decode_free_usage_json_response(json: &str) -> (r: Result<FreeUsageResponse, TransportError>)
    ensures
        match r {
            Ok(resp) => decode_free_usage_spec(json_text_value(json@)) == Ok::<
                FreeUsageResponseModel,
                TransportErrModel,
            >(resp@),
            Err(e) => decode_free_usage_spec(json_text_value(json@)) == Err::<
                FreeUsageResponseModel,
                TransportErrModel,
            >(e@),
        },
{
    let parsed = match parse_json_text(json) {
        Some(v) => v,
        None => {
            return Err(TransportError::MalformedPayload);
        },
    };
    let envelope = match decode_envelope(&parsed) {
        Some(t) => t,
        None => {
            return Err(TransportError::MalformedPayload);
        },
    };
    let total_free = match decode_count_field(&parsed, "total_free") {
        Some(c) => c,
        None => {
            return Err(TransportError::InvalidScalar);
        },
    };
    let used_today = match decode_count_field(&parsed, "used_today") {
        Some(c) => c,
        None => {
            return Err(TransportError::InvalidScalar);
        },
    };
    Ok(
        FreeUsageResponse {
            status: envelope.0,
            status_code: envelope.1,
            status_text: envelope.2,
            total_free,
            used_today,
        },
    )
}

/// The limit-usage decode: the envelope triple plus two optional counts.
pub open spec fn decode_limit_usage_spec(body: Option<JsonValue>) -> Result<
    LimitUsageResponseModel,
    TransportErrModel,
> {
    match body {
        None => Err(TransportErrModel::Malformed),
        Some(v) => match v {
            JsonValue::Object(fields) => match envelope_spec(fields@) {
                None => Err(TransportErrModel::Malformed),
                Some(t) => match count_field_spec(fields@, "total_limit"@) {
                    None => Err(TransportErrModel::InvalidScalar),
                    Some(total_limit) => match count_field_spec(fields@, "used_today"@) {
                        None => Err(TransportErrModel::InvalidScalar),
                        Some(used_today) => Ok(
                            LimitUsageResponseModel {
                                status: t.0,
                                status_code: t.1,
                                status_text: t.2,
                                total_limit,
                                used_today,
                            },
                        ),
                    },
                },
            },
            _ => Err(TransportErrModel::Malformed),
        },
    }
}

/// Decode a `my/limit` response body; counts may arrive as numbers or
/// strings.
pub fn decode_limit_usage_json_response(json: &str) -> (r: Result<
    LimitUsageResponse,
    TransportError,
>)
    ensures
        match r {
            Ok(resp) => decode_limit_usage_spec(json_text_value(json@)) == Ok::<
                LimitUsageResponseModel,
                TransportErrModel,
            >(resp@),
            Err(e) => decode_limit_usage_spec(json_text_value(json@)) == Err::<
                LimitUsageResponseModel,
                TransportErrModel,
            >(e@),
        },
{
    let parsed = match parse_json_text(json) {
        Some(v) => v,
        None => {
            return Err(TransportError::MalformedPayload);
        },
    };
    let envelope = match decode_envelope(&parsed) {
        Some(t) => t,
        None => {
            return Err(TransportError::MalformedPayload);
        },
    };
    let total_limit = match decode_count_field(&parsed, "total_limit") {
        Some(c) => c,
        None => {
            return Err(TransportError::InvalidScalar);
        },
    };
    let used_today = match decode_count_field(&parsed, "used_today") {
        Some(c) => c,
        None => {
            return Err(TransportError::InvalidScalar);
        },
    };
    Ok(
        LimitUsageResponse {
            status: envelope.0,
            status_code: envelope.1,
            status_text: envelope.2,
            total_limit,
            used_today,
        },
    )
}

/// Every element read as a string, or nothing if one is not a string.
pub open spec fn strings_spec(items: Seq<JsonValue>) -> Option<Seq<Seq<char>>>
    decreases items.len(),
{
    if items.len() == 0 {
        Some(Seq::empty())
    } else {
        match items[0] {
            JsonValue::String(s) => match strings_spec(items.drop_first()) {
                None => None,
                Some(rest) => Some(seq![s@] + rest),
            },
            _ => None,
        }
    }
}

/// The senders field: absent reads as empty; present it must be an array of
/// strings.
pub open spec fn senders_field_spec(fs: Seq<(String, JsonValue)>) -> Option<Seq<Seq<char>>> {
    match obj_get(fs, "senders"@) {
        None => Some(Seq::empty()),
        Some(v) => match v {
            JsonValue::Array(items) => strings_spec(items@),
            _ => None,
        },
    }
}

/// The senders decode: the envelope triple plus the sender list.
pub open spec fn decode_senders_spec(body: Option<JsonValue>) -> Result<
    SendersResponseModel,
    TransportErrModel,
> {
    match body {
        None => Err(TransportErrModel::Malformed),
        Some(v) => match v {
            JsonValue::Object(fields) => match envelope_spec(fields@) {
                None => Err(TransportErrModel::Malformed),
                Some(t) => match senders_field_spec(fields@) {
                    None => Err(TransportErrModel::Malformed),
                    Some(senders) => Ok(
                        SendersResponseModel {
                            status: t.0,
                            status_code: t.1,
                            status_text: t.2,
                            senders,
                        },
                    ),
                },
            },
            _ => Err(TransportErrModel::Malformed),
        },
    }
}

#[verifier::loop_isolation(false)]
fn decode_strings(items: &Vec<JsonValue>) -> (r: Option<Vec<String>>)
    ensures
        match r {
            Some(out) => strings_spec(items@) == Some(out.deep_view()),
            None => strings_spec(items@) is None,
        },
{
    let mut out: Vec<String> = Vec::new();
    let mut i: usize = 0;
    proof {
        assert(items@.skip(0) =~= items@);
        assert(out.deep_view() =~= Seq::<Seq<char>>::empty());
        assert(Seq::<Seq<char>>::empty() + strings_spec(items@)->Some_0 =~= strings_spec(
            items@,
        )->Some_0);
    }
    while i < items.len()
        invariant
            0 <= i <= items@.len(),
            match strings_spec(items@.skip(i as int)) {
                None => strings_spec(items@) is None,
                Some(rest) => strings_spec(items@) == Some(out.deep_view() + rest),
            },
        decreases items@.len() - i,
    {
        proof {
            assert(items@.skip(i as int)[0] == items@[i as int]);
            assert(items@.skip(i as int).drop_first() =~= items@.skip(i + 1));
        }
        match &items[i] {
            JsonValue::String(s) => {
                let ghost pre = out@;
                let ghost pre_dv = out.deep_view();
                let ghost sv = s@;
                out.push(s.clone());
                proof {
                    let dv = out.deep_view();
                    let tgt = pre_dv + seq![sv];
                    assert forall|j: int| 0 <= j < dv.len() implies dv[j] == tgt[j] by {
                        assert(dv[j] == out@[j]@);
                        if j < pre.len() {
                            assert(out@[j] == pre[j]);
                            assert(pre_dv[j] == pre[j]@);
                        }
                    }
                    assert(dv =~= tgt);
                    match strings_spec(items@.skip(i + 1)) {
                        None => {},
                        Some(rest) => {
                            assert(strings_spec(items@.skip(i as int)) == Some(seq![sv] + rest));
                            assert(pre_dv + (seq![sv] + rest) =~= (pre_dv + seq![sv]) + rest);
                        },
                    }
                }
                i = i + 1;
            },
            _ => {
                return None;
            },
        }
    }
    proof {
        assert(items@.skip(items@.len() as int) =~= Seq::<JsonValue>::empty());
        assert(out.deep_view() + Seq::<Seq<char>>::empty() =~= out.deep_view());
    }
    Some(out)
}

/// Decode a `my/senders` response body.
pub fn decode_senders_json_response(json: &str) -> (r: Result<SendersResponse, TransportError>)
    ensures
        match r {
            Ok(resp) => decode_senders_spec(json_text_value(json@)) == Ok::<
                SendersResponseModel,
                TransportErrModel,
            >(resp@),
            Err(e) => decode_senders_spec(json_text_value(json@)) == Err::<
                SendersResponseModel,
                TransportErrModel,
            >(e@),
        },
{
    let parsed = match parse_json_text(json) {
        Some(v) => v,
        None => {
            return Err(TransportError::MalformedPayload);
        },
    };
    let envelope = match decode_envelope(&parsed) {
        Some(t) => t,
        None => {
            return Err(TransportError::MalformedPayload);
        },
    };
    let senders: Vec<String> = match crate::json::get_field(&parsed, "senders") {
        None => Vec::new(),
        Some(sv) => match sv {
            JsonValue::Array(items) => match decode_strings(items) {
                Some(out) => out,
                None => {
                    return Err(TransportError::MalformedPayload);
                },
            },
            _ => {
                return Err(TransportError::MalformedPayload);
            },
        },
    };
    proof {
        if senders@.len() == 0 {
            assert(senders.deep_view() =~= Seq::<Seq<char>>::empty());
        }
    }
    Ok(
        SendersResponse {
            status: envelope.0,
            status_code: envelope.1,
            status_text: envelope.2,
            senders,
        },
    )
}

} // verus!
