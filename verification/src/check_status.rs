//! Decoder for the `sms/status` endpoint.
//!
//! Per-id entries are reattributed to the exact message ids the request was
//! built with; a per-id `status=ERROR` entry is kept as data.

use vstd::prelude::*;

use crate::decode::{decode_envelope, decode_money_field, envelope_spec, money_field_spec};
use crate::error::{TransportErrModel, TransportError};
use crate::json::{JsonValue, get_field, json_text_value, obj_get, parse_json_text};
use crate::lookup::{build_sms_id_lookup, match_sms_id_key, reconcile_spec, sms_id_forms,
    sms_id_table_view};
use crate::request::CheckStatus;
use crate::response::{CheckStatusResponse, CheckStatusResponseModel, SmsStatusResult,
    SmsStatusResultModel};
use crate::value::SmsId;

verus! {

/// The id texts a status request names, in request order.
pub open spec fn check_status_id_views(req: &CheckStatus) -> Seq<Seq<char>> {
    req.sms_ids_spec().map_values(|id: SmsId| id@)
}

/// One per-id entry: the envelope triple and an optional cost whose text is
/// preserved.
pub open spec fn status_item_spec(v: JsonValue) -> Result<SmsStatusResultModel, TransportErrModel> {
    match v {
        JsonValue::Object(ifs) => match envelope_spec(ifs@) {
            None => Err(TransportErrModel::Malformed),
            Some(t) => match money_field_spec(ifs@, "cost"@) {
                None => Err(TransportErrModel::InvalidScalar),
                Some(cost) => Ok(
                    SmsStatusResultModel {
                        status: t.0,
                        status_code: t.1,
                        status_text: t.2,
                        cost,
                    },
                ),
            },
        },
        _ => Err(TransportErrModel::Malformed),
    }
}

/// Every per-id entry read under its raw key, or the first entry that
/// cannot be read.
pub open spec fn status_items_spec(items: Seq<(String, JsonValue)>) -> Result<
    Seq<(Seq<char>, SmsStatusResultModel)>,
    TransportErrModel,
>
    decreases items.len(),
{
    if items.len() == 0 {
        Ok(Seq::empty())
    } else {
        match status_item_spec(items[0].1) {
            Err(e) => Err(e),
            Ok(m) => match status_items_spec(items.drop_first()) {
                Err(e) => Err(e),
                Ok(rest) => Ok(seq![(items[0].0@, m)] + rest),
            },
        }
    }
}

/// Every raw key resolved against the table, or the first key that cannot
/// be attributed.
pub open spec fn resolve_status_items_spec(
    t: Seq<(Seq<char>, Seq<char>)>,
    items: Seq<(Seq<char>, SmsStatusResultModel)>,
) -> Result<Seq<(Seq<char>, SmsStatusResultModel)>, TransportErrModel>
    decreases items.len(),
{
    if items.len() == 0 {
        Ok(Seq::empty())
    } else {
        match reconcile_spec(t, items[0].0) {
            None => Err(TransportErrModel::UnknownSmsIdKey(items[0].0)),
            Some(p) => match resolve_status_items_spec(t, items.drop_first()) {
                Err(e) => Err(e),
                Ok(rest) => Ok(seq![(p, items[0].1)] + rest),
            },
        }
    }
}

/// The status decode: the envelope triple, an optional balance whose text is
/// preserved, and the per-id map reattributed to the request's ids.
pub open spec fn decode_check_status_spec(ids: Seq<Seq<char>>, body: Option<JsonValue>) -> Result<
    CheckStatusResponseModel,
    TransportErrModel,
> {
    match body {
        None => Err(TransportErrModel::Malformed),
        Some(v) => match v {
            JsonValue::Object(fields) => match envelope_spec(fields@) {
                None => Err(TransportErrModel::Malformed),
                Some(t) => match money_field_spec(fields@, "balance"@) {
                    None => Err(TransportErrModel::InvalidScalar),
                    Some(balance) => match obj_get(fields@, "sms"@) {
                        None => Ok(
                            CheckStatusResponseModel {
                                status: t.0,
                                status_code: t.1,
                                status_text: t.2,
                                balance,
                                sms: Seq::empty(),
                            },
                        ),
                        Some(sv) => match sv {
                            JsonValue::Object(items) => match status_items_spec(items@) {
                                Err(e) => Err(e),
                                Ok(raw) => match resolve_status_items_spec(sms_id_forms(ids), raw) {
                                    Err(e) => Err(e),
                                    Ok(resolved) => Ok(
                                        CheckStatusResponseModel {
                                            status: t.0,
                                            status_code: t.1,
                                            status_text: t.2,
                                            balance,
                                            sms: resolved,
                                        },
                                    ),
                                },
                            },
                            _ => Err(TransportErrModel::Malformed),
                        },
                    },
                },
            },
            _ => Err(TransportErrModel::Malformed),
        },
    }
}

/// Collect the message ids a status request names.
#[verifier::loop_isolation(false)]
pub(crate) fn status_request_ids(request: &CheckStatus) -> (r: Vec<SmsId>)
    ensures
        r@.map_values(|id: SmsId| id@) == check_status_id_views(request),
{
    let mut out: Vec<SmsId> = Vec::new();
    let ids = request.sms_ids();
    let mut i: usize = 0;
    while i < ids.len()
        invariant
            0 <= i <= ids@.len(),
            ids@ == request.sms_ids_spec(),
            out@.map_values(|id: SmsId| id@) == ids@.take(i as int).map_values(|id: SmsId| id@),
        decreases ids@.len() - i,
    {
        let ghost pre = out@;
        out.push(ids[i].clone());
        proof {
            let lhs = out@.map_values(|id: SmsId| id@);
            let rhs = ids@.take(i + 1).map_values(|id: SmsId| id@);
            assert forall|j: int| 0 <= j < i + 1 implies lhs[j] == rhs[j] by {
                assert(lhs[j] == out@[j]@);
                assert(rhs[j] == ids@[j]@);
                if j < i {
                    assert(out@[j] == pre[j]);
                    assert(pre.map_values(|id: SmsId| id@)[j] == pre[j]@);
                    assert(ids@.take(i as int).map_values(|id: SmsId| id@)[j] == ids@[j]@);
                }
            }
            assert(lhs =~= rhs);
        }
        i = i + 1;
    }
    proof {
        assert(ids@.take(ids@.len() as int) =~= ids@);
        assert(ids@.take(ids@.len() as int).map_values(|id: SmsId| id@) =~= ids@.map_values(
            |id: SmsId| id@,
        ));
    }
    out
}

/// Read one per-id entry.
fn decode_status_item(v: &JsonValue) -> (r: Result<SmsStatusResult, TransportError>)
    ensures
        match r {
            Ok(x) => status_item_spec(*v) == Ok::<SmsStatusResultModel, TransportErrModel>(x@),
            Err(e) => status_item_spec(*v) == Err::<SmsStatusResultModel, TransportErrModel>(e@),
        },
{
    let is_object: bool = match v {
        JsonValue::Object(_) => true,
        _ => false,
    };
    if !is_object {
        return Err(TransportError::MalformedPayload);
    }
    let envelope = match decode_envelope(v) {
        Some(t) => t,
        None => {
            return Err(TransportError::MalformedPayload);
        },
    };
    let cost = match decode_money_field(v, "cost") {
        Some(c) => c,
        None => {
            return Err(TransportError::InvalidScalar);
        },
    };
    Ok(
        SmsStatusResult {
            status: envelope.0,
            status_code: envelope.1,
            status_text: envelope.2,
            cost,
        },
    )
}

/// The raw-keyed pairs, as text.
pub open spec fn raw_status_items_view(s: Seq<(String, SmsStatusResult)>) -> Seq<
    (Seq<char>, SmsStatusResultModel),
> {
    s.map_values(|p: (String, SmsStatusResult)| (p.0@, p.1@))
}

#[verifier::loop_isolation(false)]
fn decode_status_items(items: &Vec<(String, JsonValue)>) -> (r: Result<
    Vec<(String, SmsStatusResult)>,
    TransportError,
>)
    ensures
        match r {
            Ok(out) => status_items_spec(items@) == Ok::<
                Seq<(Seq<char>, SmsStatusResultModel)>,
                TransportErrModel,
            >(raw_status_items_view(out@)),
            Err(e) => status_items_spec(items@) == Err::<
                Seq<(Seq<char>, SmsStatusResultModel)>,
                TransportErrModel,
            >(e@),
        },
{
    let mut out: Vec<(String, SmsStatusResult)> = Vec::new();
    let mut i: usize = 0;
    proof {
        assert(items@.skip(0) =~= items@);
    }
    while i < items.len()
        invariant
            0 <= i <= items@.len(),
            match status_items_spec(items@.skip(i as int)) {
                Err(e) => status_items_spec(items@) == Err::<
                    Seq<(Seq<char>, SmsStatusResultModel)>,
                    TransportErrModel,
                >(e),
                Ok(rest) => status_items_spec(items@) == Ok::<
                    Seq<(Seq<char>, SmsStatusResultModel)>,
                    TransportErrModel,
                >(raw_status_items_view(out@) + rest),
            },
        decreases items@.len() - i,
    {
        proof {
            assert(items@.skip(i as int)[0] == items@[i as int]);
            assert(items@.skip(i as int).drop_first() =~= items@.skip(i + 1));
        }
        let m = match decode_status_item(&items[i].1) {
            Ok(m) => m,
            Err(e) => {
                return Err(e);
            },
        };
        let ghost pre = out@;
        out.push((items[i].0.clone(), m));
        proof {
            assert(raw_status_items_view(out@) =~= raw_status_items_view(pre) + seq![
                (items@[i as int].0@, m@),
            ]);
            match status_items_spec(items@.skip(i + 1)) {
                Err(_) => {},
                Ok(rest) => {
                    assert(status_items_spec(items@.skip(i as int)) == Ok::<
                        Seq<(Seq<char>, SmsStatusResultModel)>,
                        TransportErrModel,
                    >(seq![(items@[i as int].0@, m@)] + rest));
                    assert(raw_status_items_view(pre) + (seq![(items@[i as int].0@, m@)] + rest)
                        =~= raw_status_items_view(out@) + rest);
                },
            }
        }
        i = i + 1;
    }
    proof {
        assert(items@.skip(items@.len() as int) =~= Seq::<(String, JsonValue)>::empty());
        assert(raw_status_items_view(out@) + Seq::<(Seq<char>, SmsStatusResultModel)>::empty()
            =~= raw_status_items_view(out@));
    }
    Ok(out)
}

/// The resolved pairs, as text.
pub open spec fn resolved_status_items_view(s: Seq<(SmsId, SmsStatusResult)>) -> Seq<
    (Seq<char>, SmsStatusResultModel),
> {
    s.map_values(|p: (SmsId, SmsStatusResult)| (p.0@, p.1@))
}

#[verifier::loop_isolation(false)]
fn resolve_status_items(table: &Vec<(String, SmsId)>, raw: Vec<(String, SmsStatusResult)>) -> (r:
    Result<Vec<(SmsId, SmsStatusResult)>, TransportError>)
    ensures
        match r {
            Ok(out) => resolve_status_items_spec(
                sms_id_table_view(table@),
                raw_status_items_view(raw@),
            ) == Ok::<Seq<(Seq<char>, SmsStatusResultModel)>, TransportErrModel>(
                resolved_status_items_view(out@),
            ),
            Err(e) => resolve_status_items_spec(
                sms_id_table_view(table@),
                raw_status_items_view(raw@),
            ) == Err::<Seq<(Seq<char>, SmsStatusResultModel)>, TransportErrModel>(e@),
        },
{
    let ghost tv = sms_id_table_view(table@);
    let ghost rv = raw_status_items_view(raw@);
    let mut out: Vec<(SmsId, SmsStatusResult)> = Vec::new();
    let mut i: usize = 0;
    proof {
        assert(rv.skip(0) =~= rv);
    }
    while i < raw.len()
        invariant
            0 <= i <= raw@.len(),
            tv == sms_id_table_view(table@),
            rv == raw_status_items_view(raw@),
            match resolve_status_items_spec(tv, rv.skip(i as int)) {
                Ok(rest) => resolve_status_items_spec(tv, rv) == Ok::<
                    Seq<(Seq<char>, SmsStatusResultModel)>,
                    TransportErrModel,
                >(resolved_status_items_view(out@) + rest),
                Err(e) => resolve_status_items_spec(tv, rv) == Err::<
                    Seq<(Seq<char>, SmsStatusResultModel)>,
                    TransportErrModel,
                >(e),
            },
        decreases raw@.len() - i,
    {
        proof {
            assert(rv.skip(i as int)[0] == rv[i as int]);
            assert(rv.skip(i as int).drop_first() =~= rv.skip(i + 1));
        }
        let sms_id = match match_sms_id_key(table, raw[i].0.as_str()) {
            Ok(p) => p,
            Err(e) => {
                return Err(e);
            },
        };
        let ghost pre = out@;
        let ghost idv = sms_id@;
        let text = raw[i].1.clone();
        out.push((sms_id, text));
        proof {
            assert(resolved_status_items_view(out@) =~= resolved_status_items_view(pre) + seq![
                (idv, rv[i as int].1),
            ]);
            match resolve_status_items_spec(tv, rv.skip(i + 1)) {
                Ok(rest) => {
                    assert(resolve_status_items_spec(tv, rv.skip(i as int)) == Ok::<
                        Seq<(Seq<char>, SmsStatusResultModel)>,
                        TransportErrModel,
                    >(seq![(idv, rv[i as int].1)] + rest));
                    assert(resolved_status_items_view(pre) + (seq![(idv, rv[i as int].1)] + rest)
                        =~= resolved_status_items_view(out@) + rest);
                },
                Err(_) => {},
            }
        }
        i = i + 1;
    }
    proof {
        assert(rv.skip(rv.len() as int) =~= Seq::<(Seq<char>, SmsStatusResultModel)>::empty());
        assert(resolved_status_items_view(out@) + Seq::<(Seq<char>, SmsStatusResultModel)>::empty()
            =~= resolved_status_items_view(out@));
    }
    Ok(out)
}

/// Decode an `sms/status` response body against the request that produced
/// it.
pub fn decode_check_status_json_response(request: &CheckStatus, json: &str) -> (r: Result<
    CheckStatusResponse,
    TransportError,
>)
    ensures
        match r {
            Ok(resp) => decode_check_status_spec(
                check_status_id_views(request),
                json_text_value(json@),
            ) == Ok::<CheckStatusResponseModel, TransportErrModel>(resp@),
            Err(e) => decode_check_status_spec(
                check_status_id_views(request),
                json_text_value(json@),
            ) == Err::<CheckStatusResponseModel, TransportErrModel>(e@),
        },
{
    let ids = status_request_ids(request);
    let table = build_sms_id_lookup(&ids);
    let parsed = match parse_json_text(json) {
        Some(v) => v,
        None => {
            return Err(TransportError::MalformedPayload);
        },
    };
    let envelope = match decode_envelope(&parsed) {
        Some(t) => t,
        None => {
            return Err(TransportError::MalformedPayload);
        },
    };
    let balance = match decode_money_field(&parsed, "balance") {
        Some(b) => b,
        None => {
            return Err(TransportError::InvalidScalar);
        },
    };
    let sms: Vec<(SmsId, SmsStatusResult)> = match get_field(&parsed, "sms") {
        None => Vec::new(),
        Some(sv) => match sv {
            JsonValue::Object(items) => {
                let raw = match decode_status_items(items) {
                    Ok(raw) => raw,
                    Err(e) => {
                        return Err(e);
                    },
                };
                match resolve_status_items(&table, raw) {
                    Ok(resolved) => resolved,
                    Err(e) => {
                        return Err(e);
                    },
                }
            },
            _ => {
                return Err(TransportError::MalformedPayload);
            },
        },
    };
    let resp = CheckStatusResponse {
        status: envelope.0,
        status_code: envelope.1,
        status_text: envelope.2,
        balance,
        sms,
    };
    proof {
        if resp.sms@.len() == 0 {
            assert(resp@.sms =~= Seq::<(Seq<char>, SmsStatusResultModel)>::empty());
        }
        assert(resp@.sms =~= resolved_status_items_view(resp.sms@));
    }
    Ok(resp)
}

} // verus!
