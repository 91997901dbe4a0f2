//! Decoder for the `sms/cost` endpoint.
//!
//! Cost texts survive exactly as the server wrote them; per-recipient
//! entries are reattributed to the request's phone numbers.

use vstd::prelude::*;

use crate::decode::{count_field_spec, decode_count_field, decode_envelope, decode_money_field,
    envelope_spec, money_field_spec};
use crate::error::{TransportErrModel, TransportError};
use crate::json::{JsonValue, get_field, json_text_value, obj_get, parse_json_text};
use crate::lookup::{build_phone_lookup, match_phone_key, phone_forms, phone_table_view,
    reconcile_spec};
use crate::request::CheckCost;
use crate::response::{CheckCostResponse, CheckCostResponseModel, SmsCostResult,
    SmsCostResultModel};
use crate::value::{MessageText, RawPhoneNumber};

verus! {

/// The phone texts a cost request names, in request order.
pub open spec fn check_cost_phone_views(req: &CheckCost) -> Seq<Seq<char>> {
    match req {
        CheckCost::ToMany(t) => t.recipients_spec().map_values(|p: RawPhoneNumber| p@),
        CheckCost::PerRecipient(p) => p.messages_spec().map_values(
            |e: (RawPhoneNumber, MessageText)| e.0@,
        ),
    }
}

/// One per-recipient entry: the envelope triple, an optional cost whose text
/// is preserved, and an optional segment count.
pub open spec fn cost_item_spec(v: JsonValue) -> Result<SmsCostResultModel, TransportErrModel> {
    match v {
        JsonValue::Object(ifs) => match envelope_spec(ifs@) {
            None => Err(TransportErrModel::Malformed),
            Some(t) => match money_field_spec(ifs@, "cost"@) {
                None => Err(TransportErrModel::InvalidScalar),
                Some(cost) => match count_field_spec(ifs@, "sms"@) {
                    None => Err(TransportErrModel::InvalidScalar),
                    Some(sms) => Ok(
                        SmsCostResultModel {
                            status: t.0,
                            status_code: t.1,
                            status_text: t.2,
                            cost,
                            sms,
                        },
                    ),
                },
            },
        },
        _ => Err(TransportErrModel::Malformed),
    }
}

/// Every per-recipient entry read under its raw key, or the first entry
/// that cannot be read.
pub open spec fn cost_items_spec(items: Seq<(String, JsonValue)>) -> Result<
    Seq<(Seq<char>, SmsCostResultModel)>,
    TransportErrModel,
>
    decreases items.len(),
{
    if items.len() == 0 {
        Ok(Seq::empty())
    } else {
        match cost_item_spec(items[0].1) {
            Err(e) => Err(e),
            Ok(m) => match cost_items_spec(items.drop_first()) {
                Err(e) => Err(e),
                Ok(rest) => Ok(seq![(items[0].0@, m)] + rest),
            },
        }
    }
}

/// Every raw key resolved against the table, or the first key that cannot
/// be attributed.
pub open spec fn resolve_cost_items_spec(
    t: Seq<(Seq<char>, Seq<char>)>,
    items: Seq<(Seq<char>, SmsCostResultModel)>,
) -> Result<Seq<(Seq<char>, SmsCostResultModel)>, TransportErrModel>
    decreases items.len(),
{
    if items.len() == 0 {
        Ok(Seq::empty())
    } else {
        match reconcile_spec(t, items[0].0) {
            None => Err(TransportErrModel::UnknownPhoneNumberKey(items[0].0)),
            Some(p) => match resolve_cost_items_spec(t, items.drop_first()) {
                Err(e) => Err(e),
                Ok(rest) => Ok(seq![(p, items[0].1)] + rest),
            },
        }
    }
}

/// The cost decode: the envelope triple, total cost and segment count, and
/// the per-recipient map reattributed to the request's phone numbers.
pub open spec fn decode_check_cost_spec(phones: Seq<Seq<char>>, body: Option<JsonValue>) -> Result<
    CheckCostResponseModel,
    TransportErrModel,
> {
    match body {
        None => Err(TransportErrModel::Malformed),
        Some(v) => match v {
            JsonValue::Object(fields) => match envelope_spec(fields@) {
                None => Err(TransportErrModel::Malformed),
                Some(t) => match money_field_spec(fields@, "total_cost"@) {
                    None => Err(TransportErrModel::InvalidScalar),
                    Some(total_cost) => match count_field_spec(fields@, "total_sms"@) {
                        None => Err(TransportErrModel::InvalidScalar),
                        Some(total_sms) => match obj_get(fields@, "sms"@) {
                            None => Ok(
                                CheckCostResponseModel {
                                    status: t.0,
                                    status_code: t.1,
                                    status_text: t.2,
                                    total_cost,
                                    total_sms,
                                    sms: Seq::empty(),
                                },
                            ),
                            Some(sv) => match sv {
                                JsonValue::Object(items) => match cost_items_spec(items@) {
                                    Err(e) => Err(e),
                                    Ok(raw) => match resolve_cost_items_spec(
                                        phone_forms(phones),
                                        raw,
                                    ) {
                                        Err(e) => Err(e),
                                        Ok(resolved) => Ok(
                                            CheckCostResponseModel {
                                                status: t.0,
                                                status_code: t.1,
                                                status_text: t.2,
                                                total_cost,
                                                total_sms,
                                                sms: resolved,
                                            },
                                        ),
                                    },
                                },
                                _ => Err(TransportErrModel::Malformed),
                            },
                        },
                    },
                },
            },
            _ => Err(TransportErrModel::Malformed),
        },
    }
}

/// Collect the phone numbers a cost request names.
#[verifier::loop_isolation(false)]
pub(crate) fn cost_request_phones(request: &CheckCost) -> (r: Vec<RawPhoneNumber>)
    ensures
        r@.map_values(|p: RawPhoneNumber| p@) == check_cost_phone_views(request),
{
    let mut out: Vec<RawPhoneNumber> = Vec::new();
    match request {
        CheckCost::ToMany(t) => {
            let recipients = t.recipients();
            let mut i: usize = 0;
            while i < recipients.len()
                invariant
                    0 <= i <= recipients@.len(),
                    recipients@ == t.recipients_spec(),
                    out@.map_values(|p: RawPhoneNumber| p@) == recipients@.take(
                        i as int,
                    ).map_values(|p: RawPhoneNumber| p@),
                decreases recipients@.len() - i,
            {
                let ghost pre = out@;
                out.push(recipients[i].clone());
                proof {
                    let lhs = out@.map_values(|p: RawPhoneNumber| p@);
                    let rhs = recipients@.take(i + 1).map_values(|p: RawPhoneNumber| p@);
                    assert forall|j: int| 0 <= j < i + 1 implies lhs[j] == rhs[j] by {
                        assert(lhs[j] == out@[j]@);
                        assert(rhs[j] == recipients@[j]@);
                        if j < i {
                            assert(out@[j] == pre[j]);
                            assert(pre.map_values(|p: RawPhoneNumber| p@)[j] == pre[j]@);
                            assert(recipients@.take(i as int).map_values(|p: RawPhoneNumber| p@)[j]
                                == recipients@[j]@);
                        }
                    }
                    assert(lhs =~= rhs);
                }
                i = i + 1;
            }
            proof {
                assert(recipients@.take(recipients@.len() as int) =~= recipients@);
                assert(recipients@.take(recipients@.len() as int).map_values(
                    |p: RawPhoneNumber| p@,
                ) =~= recipients@.map_values(|p: RawPhoneNumber| p@));
            }
        },
        CheckCost::PerRecipient(p) => {
            let messages = p.messages();
            let mut i: usize = 0;
            while i < messages.len()
                invariant
                    0 <= i <= messages@.len(),
                    messages@ == p.messages_spec(),
                    out@.map_values(|q: RawPhoneNumber| q@) == messages@.take(i as int).map_values(
                        |e: (RawPhoneNumber, MessageText)| e.0@,
                    ),
                decreases messages@.len() - i,
            {
                let ghost pre = out@;
                out.push(messages[i].0.clone());
                proof {
                    let lhs = out@.map_values(|q: RawPhoneNumber| q@);
                    let rhs = messages@.take(i + 1).map_values(
                        |e: (RawPhoneNumber, MessageText)| e.0@,
                    );
                    assert forall|j: int| 0 <= j < i + 1 implies lhs[j] == rhs[j] by {
                        assert(lhs[j] == out@[j]@);
                        assert(rhs[j] == messages@[j].0@);
                        if j < i {
                            assert(out@[j] == pre[j]);
                            assert(pre.map_values(|q: RawPhoneNumber| q@)[j] == pre[j]@);
                            assert(messages@.take(i as int).map_values(
                                |e: (RawPhoneNumber, MessageText)| e.0@,
                            )[j] == messages@[j].0@);
                        }
                    }
                    assert(lhs =~= rhs);
                }
                i = i + 1;
            }
            proof {
                assert(messages@.take(messages@.len() as int) =~= messages@);
                assert(messages@.take(messages@.len() as int).map_values(
                    |e: (RawPhoneNumber, MessageText)| e.0@,
                ) =~= messages@.map_values(|e: (RawPhoneNumber, MessageText)| e.0@));
            }
        },
    }
    out
}

/// Read one per-recipient entry.
fn decode_cost_item(v: &JsonValue) -> (r: Result<SmsCostResult, TransportError>)
    ensures
        match r {
            Ok(x) => cost_item_spec(*v) == Ok::<SmsCostResultModel, TransportErrModel>(x@),
            Err(e) => cost_item_spec(*v) == Err::<SmsCostResultModel, TransportErrModel>(e@),
        },
{
    let is_object: bool = match v {
        JsonValue::Object(_) => true,
        _ => false,
    };
    if !is_object {
        return Err(TransportError::MalformedPayload);
    }
    let envelope = match decode_envelope(v) {
        Some(t) => t,
        None => {
            return Err(TransportError::MalformedPayload);
        },
    };
    let cost = match decode_money_field(v, "cost") {
        Some(c) => c,
        None => {
            return Err(TransportError::InvalidScalar);
        },
    };
    let sms = match decode_count_field(v, "sms") {
        Some(c) => c,
        None => {
            return Err(TransportError::InvalidScalar);
        },
    };
    Ok(
        SmsCostResult {
            status: envelope.0,
            status_code: envelope.1,
            status_text: envelope.2,
            cost,
            sms,
        },
    )
}

/// The raw-keyed pairs, as text.
pub open spec fn raw_cost_items_view(s: Seq<(String, SmsCostResult)>) -> Seq<
    (Seq<char>, SmsCostResultModel),
> {
    s.map_values(|p: (String, SmsCostResult)| (p.0@, p.1@))
}

#[verifier::loop_isolation(false)]
fn decode_cost_items(items: &Vec<(String, JsonValue)>) -> (r: Result<
    Vec<(String, SmsCostResult)>,
    TransportError,
>)
    ensures
        match r {
            Ok(out) => cost_items_spec(items@) == Ok::<
                Seq<(Seq<char>, SmsCostResultModel)>,
                TransportErrModel,
            >(raw_cost_items_view(out@)),
            Err(e) => cost_items_spec(items@) == Err::<
                Seq<(Seq<char>, SmsCostResultModel)>,
                TransportErrModel,
            >(e@),
        },
{
    let mut out: Vec<(String, SmsCostResult)> = Vec::new();
    let mut i: usize = 0;
    proof {
        assert(items@.skip(0) =~= items@);
    }
    while i < items.len()
        invariant
            0 <= i <= items@.len(),
            match cost_items_spec(items@.skip(i as int)) {
                Err(e) => cost_items_spec(items@) == Err::<
                    Seq<(Seq<char>, SmsCostResultModel)>,
                    TransportErrModel,
                >(e),
                Ok(rest) => cost_items_spec(items@) == Ok::<
                    Seq<(Seq<char>, SmsCostResultModel)>,
                    TransportErrModel,
                >(raw_cost_items_view(out@) + rest),
            },
        decreases items@.len() - i,
    {
        proof {
            assert(items@.skip(i as int)[0] == items@[i as int]);
            assert(items@.skip(i as int).drop_first() =~= items@.skip(i + 1));
        }
        let m = match decode_cost_item(&items[i].1) {
            Ok(m) => m,
            Err(e) => {
                return Err(e);
            },
        };
        let ghost pre = out@;
        out.push((items[i].0.clone(), m));
        proof {
            assert(raw_cost_items_view(out@) =~= raw_cost_items_view(pre) + seq![
                (items@[i as int].0@, m@),
            ]);
            match cost_items_spec(items@.skip(i + 1)) {
                Err(_) => {},
                Ok(rest) => {
                    assert(cost_items_spec(items@.skip(i as int)) == Ok::<
                        Seq<(Seq<char>, SmsCostResultModel)>,
                        TransportErrModel,
                    >(seq![(items@[i as int].0@, m@)] + rest));
                    assert(raw_cost_items_view(pre) + (seq![(items@[i as int].0@, m@)] + rest)
                        =~= raw_cost_items_view(out@) + rest);
                },
            }
        }
        i = i + 1;
    }
    proof {
        assert(items@.skip(items@.len() as int) =~= Seq::<(String, JsonValue)>::empty());
        assert(raw_cost_items_view(out@) + Seq::<(Seq<char>, SmsCostResultModel)>::empty()
            =~= raw_cost_items_view(out@));
    }
    Ok(out)
}

/// The resolved pairs, as text.
pub open spec fn resolved_cost_items_view(s: Seq<(RawPhoneNumber, SmsCostResult)>) -> Seq<
    (Seq<char>, SmsCostResultModel),
> {
    s.map_values(|p: (RawPhoneNumber, SmsCostResult)| (p.0@, p.1@))
}

#[verifier::loop_isolation(false)]
fn resolve_cost_items(table: &Vec<(String, RawPhoneNumber)>, raw: Vec<(String, SmsCostResult)>) -> (
    r: Result<Vec<(RawPhoneNumber, SmsCostResult)>, TransportError>)
    ensures
        match r {
            Ok(out) => resolve_cost_items_spec(phone_table_view(table@), raw_cost_items_view(raw@))
                == Ok::<Seq<(Seq<char>, SmsCostResultModel)>, TransportErrModel>(
                resolved_cost_items_view(out@),
            ),
            Err(e) => resolve_cost_items_spec(phone_table_view(table@), raw_cost_items_view(raw@))
                == Err::<Seq<(Seq<char>, SmsCostResultModel)>, TransportErrModel>(e@),
        },
{
    let ghost tv = phone_table_view(table@);
    let ghost rv = raw_cost_items_view(raw@);
    let mut out: Vec<(RawPhoneNumber, SmsCostResult)> = Vec::new();
    let mut i: usize = 0;
    proof {
        assert(rv.skip(0) =~= rv);
    }
    while i < raw.len()
        invariant
            0 <= i <= raw@.len(),
            tv == phone_table_view(table@),
            rv == raw_cost_items_view(raw@),
            match resolve_cost_items_spec(tv, rv.skip(i as int)) {
                Ok(rest) => resolve_cost_items_spec(tv, rv) == Ok::<
                    Seq<(Seq<char>, SmsCostResultModel)>,
                    TransportErrModel,
                >(resolved_cost_items_view(out@) + rest),
                Err(e) => resolve_cost_items_spec(tv, rv) == Err::<
                    Seq<(Seq<char>, SmsCostResultModel)>,
                    TransportErrModel,
                >(e),
            },
        decreases raw@.len() - i,
    {
        proof {
            assert(rv.skip(i as int)[0] == rv[i as int]);
            assert(rv.skip(i as int).drop_first() =~= rv.skip(i + 1));
        }
        let phone = match match_phone_key(table, raw[i].0.as_str()) {
            Ok(p) => p,
            Err(e) => {
                return Err(e);
            },
        };
        let ghost pre = out@;
        let ghost pv = phone@;
        let text = raw[i].1.clone();
        out.push((phone, text));
        proof {
            assert(resolved_cost_items_view(out@) =~= resolved_cost_items_view(pre) + seq![
                (pv, rv[i as int].1),
            ]);
            match resolve_cost_items_spec(tv, rv.skip(i + 1)) {
                Ok(rest) => {
                    assert(resolve_cost_items_spec(tv, rv.skip(i as int)) == Ok::<
                        Seq<(Seq<char>, SmsCostResultModel)>,
                        TransportErrModel,
                    >(seq![(pv, rv[i as int].1)] + rest));
                    assert(resolved_cost_items_view(pre) + (seq![(pv, rv[i as int].1)] + rest)
                        =~= resolved_cost_items_view(out@) + rest);
                },
                Err(_) => {},
            }
        }
        i = i + 1;
    }
    proof {
        assert(rv.skip(rv.len() as int) =~= Seq::<(Seq<char>, SmsCostResultModel)>::empty());
        assert(resolved_cost_items_view(out@) + Seq::<(Seq<char>, SmsCostResultModel)>::empty()
            =~= resolved_cost_items_view(out@));
    }
    Ok(out)
}

/// Decode an `sms/cost` response body against the request that produced it.
pub fn decode_check_cost_json_response(request: &CheckCost, json: &str) -> (r: Result<
    CheckCostResponse,
    TransportError,
>)
    ensures
        match r {
            Ok(resp) => decode_check_cost_spec(
                check_cost_phone_views(request),
                json_text_value(json@),
            ) == Ok::<CheckCostResponseModel, TransportErrModel>(resp@),
            Err(e) => decode_check_cost_spec(
                check_cost_phone_views(request),
                json_text_value(json@),
            ) == Err::<CheckCostResponseModel, TransportErrModel>(e@),
        },
{
    let phones = cost_request_phones(request);
    let table = build_phone_lookup(&phones);
    let parsed = match parse_json_text(json) {
        Some(v) => v,
        None => {
            return Err(TransportError::MalformedPayload);
        },
    };
    let envelope = match decode_envelope(&parsed) {
        Some(t) => t,
        None => {
            return Err(TransportError::MalformedPayload);
        },
    };
    let total_cost = match decode_money_field(&parsed, "total_cost") {
        Some(b) => b,
        None => {
            return Err(TransportError::InvalidScalar);
        },
    };
    let total_sms = match decode_count_field(&parsed, "total_sms") {
        Some(c) => c,
        None => {
            return Err(TransportError::InvalidScalar);
        },
    };
    let sms: Vec<(RawPhoneNumber, SmsCostResult)> = match get_field(&parsed, "sms") {
        None => Vec::new(),
        Some(sv) => match sv {
            JsonValue::Object(items) => {
                let raw = match decode_cost_items(items) {
                    Ok(raw) => raw,
                    Err(e) => {
                        return Err(e);
                    },
                };
                match resolve_cost_items(&table, raw) {
                    Ok(resolved) => resolved,
                    Err(e) => {
                        return Err(e);
                    },
                }
            },
            _ => {
                return Err(TransportError::MalformedPayload);
            },
        },
    };
    let resp = CheckCostResponse {
        status: envelope.0,
        status_code: envelope.1,
        status_text: envelope.2,
        total_cost,
        total_sms,
        sms,
    };
    proof {
        if resp.sms@.len() == 0 {
            assert(resp@.sms =~= Seq::<(Seq<char>, SmsCostResultModel)>::empty());
        }
        assert(resp@.sms =~= resolved_cost_items_view(resp.sms@));
    }
    Ok(resp)
}

} // verus!
