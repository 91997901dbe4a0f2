//! Decoder for the `sms/send` endpoint.
//!
//! A successful decode reattributes every per-recipient entry to the exact
//! phone number the request was built with; an entry with its own
//! `status=ERROR` is kept as data, never promoted to a decode failure.

use vstd::prelude::*;

use crate::decode::{decode_envelope, decode_money_field, decode_text_field, envelope_spec,
    money_field_spec, text_field_spec};
use crate::error::{TransportErrModel, TransportError};
use crate::json::{JsonValue, get_field, json_text_value, obj_get, parse_json_text};
use crate::lookup::{build_phone_lookup, match_phone_key, phone_forms, phone_table_view,
    reconcile_spec};
use crate::request::SendSms;
use crate::response::{SendSmsResponse, SendSmsResponseModel, SmsResult, SmsResultModel};
use crate::value::{MessageText, RawPhoneNumber};

verus! {

/// The phone texts a send request names, in request order.
pub open spec fn send_sms_phone_views(req: &SendSms) -> Seq<Seq<char>> {
    match req {
        SendSms::ToMany(t) => t.recipients_spec().map_values(|p: RawPhoneNumber| p@),
        SendSms::PerRecipient(p) => p.messages_spec().map_values(
            |e: (RawPhoneNumber, MessageText)| e.0@,
        ),
    }
}

/// One per-recipient entry: an object carrying the envelope triple and an
/// optional `sms_id`.
pub open spec fn sms_item_spec(v: JsonValue) -> Option<SmsResultModel> {
    match v {
        JsonValue::Object(ifs) => match envelope_spec(ifs@) {
            None => None,
            Some(t) => match text_field_spec(ifs@, "sms_id"@) {
                None => None,
                Some(sms_id) => Some(
                    SmsResultModel {
                        status: t.0,
                        status_code: t.1,
                        status_text: t.2,
                        sms_id,
                    },
                ),
            },
        },
        _ => None,
    }
}

/// Every per-recipient entry read under its raw key, or nothing where one
/// entry is not readable.
pub open spec fn sms_items_spec(items: Seq<(String, JsonValue)>) -> Option<
    Seq<(Seq<char>, SmsResultModel)>,
>
    decreases items.len(),
{
    if items.len() == 0 {
        Some(Seq::empty())
    } else {
        match sms_item_spec(items[0].1) {
            None => None,
            Some(m) => match sms_items_spec(items.drop_first()) {
                None => None,
                Some(rest) => Some(seq![(items[0].0@, m)] + rest),
            },
        }
    }
}

/// Every raw key resolved against the table, or the first key that cannot
/// be attributed.
pub open spec fn resolve_phone_items_spec(
    t: Seq<(Seq<char>, Seq<char>)>,
    items: Seq<(Seq<char>, SmsResultModel)>,
) -> Result<Seq<(Seq<char>, SmsResultModel)>, TransportErrModel>
    decreases items.len(),
{
    if items.len() == 0 {
        Ok(Seq::empty())
    } else {
        match reconcile_spec(t, items[0].0) {
            None => Err(TransportErrModel::UnknownPhoneNumberKey(items[0].0)),
            Some(p) => match resolve_phone_items_spec(t, items.drop_first()) {
                Err(e) => Err(e),
                Ok(rest) => Ok(seq![(p, items[0].1)] + rest),
            },
        }
    }
}

/// The send decode: the envelope triple, an optional balance whose text is
/// preserved exactly, and the per-recipient map reattributed to the
/// request's phone numbers.
pub open spec fn decode_send_sms_spec(phones: Seq<Seq<char>>, body: Option<JsonValue>) -> Result<
    SendSmsResponseModel,
    TransportErrModel,
> {
    match body {
        None => Err(TransportErrModel::Malformed),
        Some(v) => match v {
            JsonValue::Object(fields) => match envelope_spec(fields@) {
                None => Err(TransportErrModel::Malformed),
                Some(t) => match money_field_spec(fields@, "balance"@) {
                    None => Err(TransportErrModel::InvalidScalar),
                    Some(balance) => match obj_get(fields@, "sms"@) {
                        None => Ok(
                            SendSmsResponseModel {
                                status: t.0,
                                status_code: t.1,
                                status_text: t.2,
                                balance,
                                sms: Seq::empty(),
                            },
                        ),
                        Some(sv) => match sv {
                            JsonValue::Object(items) => match sms_items_spec(items@) {
                                None => Err(TransportErrModel::Malformed),
                                Some(raw) => match resolve_phone_items_spec(phone_forms(phones), raw) {
                                    Err(e) => Err(e),
                                    Ok(resolved) => Ok(
                                        SendSmsResponseModel {
                                            status: t.0,
                                            status_code: t.1,
                                            status_text: t.2,
                                            balance,
                                            sms: resolved,
                                        },
                                    ),
                                },
                            },
                            _ => Err(TransportErrModel::Malformed),
                        },
                    },
                },
            },
            _ => Err(TransportErrModel::Malformed),
        },
    }
}

/// Collect the phone numbers a send request names.
#[verifier::loop_isolation(false)]
pub(crate) fn send_request_phones(request: &SendSms) -> (r: Vec<RawPhoneNumber>)
    ensures
        r@.map_values(|p: RawPhoneNumber| p@) == send_sms_phone_views(request),
{
    let mut out: Vec<RawPhoneNumber> = Vec::new();
    match request {
        SendSms::ToMany(t) => {
            let recipients = t.recipients();
            let mut i: usize = 0;
            while i < recipients.len()
                invariant
                    0 <= i <= recipients@.len(),
                    recipients@ == t.recipients_spec(),
                    out@.map_values(|p: RawPhoneNumber| p@) == recipients@.take(
                        i as int,
                    ).map_values(|p: RawPhoneNumber| p@),
                decreases recipients@.len() - i,
            {
                let ghost pre = out@;
                out.push(recipients[i].clone());
                proof {
                    let lhs = out@.map_values(|p: RawPhoneNumber| p@);
                    let rhs = recipients@.take(i + 1).map_values(|p: RawPhoneNumber| p@);
                    assert forall|j: int| 0 <= j < i + 1 implies lhs[j] == rhs[j] by {
                        assert(lhs[j] == out@[j]@);
                        assert(rhs[j] == recipients@[j]@);
                        if j < i {
                            assert(out@[j] == pre[j]);
                            assert(pre.map_values(|p: RawPhoneNumber| p@)[j] == pre[j]@);
                            assert(recipients@.take(i as int).map_values(|p: RawPhoneNumber| p@)[j]
                                == recipients@[j]@);
                        }
                    }
                    assert(lhs =~= rhs);
                }
                i = i + 1;
            }
            proof {
                assert(recipients@.take(recipients@.len() as int) =~= recipients@);
                assert(recipients@.take(recipients@.len() as int).map_values(
                    |p: RawPhoneNumber| p@,
                ) =~= recipients@.map_values(|p: RawPhoneNumber| p@));
            }
        },
        SendSms::PerRecipient(p) => {
            let messages = p.messages();
            let mut i: usize = 0;
            while i < messages.len()
                invariant
                    0 <= i <= messages@.len(),
                    messages@ == p.messages_spec(),
                    out@.map_values(|q: RawPhoneNumber| q@) == messages@.take(i as int).map_values(
                        |e: (RawPhoneNumber, MessageText)| e.0@,
                    ),
                decreases messages@.len() - i,
            {
                let ghost pre = out@;
                out.push(messages[i].0.clone());
                proof {
                    let lhs = out@.map_values(|q: RawPhoneNumber| q@);
                    let rhs = messages@.take(i + 1).map_values(
                        |e: (RawPhoneNumber, MessageText)| e.0@,
                    );
                    assert forall|j: int| 0 <= j < i + 1 implies lhs[j] == rhs[j] by {
                        assert(lhs[j] == out@[j]@);
                        assert(rhs[j] == messages@[j].0@);
                        if j < i {
                            assert(out@[j] == pre[j]);
                            assert(pre.map_values(|q: RawPhoneNumber| q@)[j] == pre[j]@);
                            assert(messages@.take(i as int).map_values(
                                |e: (RawPhoneNumber, MessageText)| e.0@,
                            )[j] == messages@[j].0@);
                        }
                    }
                    assert(lhs =~= rhs);
                }
                i = i + 1;
            }
            proof {
                assert(messages@.take(messages@.len() as int) =~= messages@);
                assert(messages@.take(messages@.len() as int).map_values(
                    |e: (RawPhoneNumber, MessageText)| e.0@,
                ) =~= messages@.map_values(|e: (RawPhoneNumber, MessageText)| e.0@));
            }
        },
    }
    out
}

/// Read one per-recipient entry.
fn decode_sms_item(v: &JsonValue) -> (r: Option<SmsResult>)
    ensures
        match r {
            Some(x) => sms_item_spec(*v) == Some(x@),
            None => sms_item_spec(*v) is None,
        },
{
    let is_object: bool = match v {
        JsonValue::Object(_) => true,
        _ => false,
    };
    if !is_object {
        return None;
    }
    let envelope = match decode_envelope(v) {
        Some(t) => t,
        None => {
            return None;
        },
    };
    let sms_id = match decode_text_field(v, "sms_id") {
        Some(x) => x,
        None => {
            return None;
        },
    };
    Some(
        SmsResult {
            status: envelope.0,
            status_code: envelope.1,
            status_text: envelope.2,
            sms_id,
        },
    )
}

/// The raw-keyed pairs, as text.
pub open spec fn raw_items_view(s: Seq<(String, SmsResult)>) -> Seq<(Seq<char>, SmsResultModel)> {
    s.map_values(|p: (String, SmsResult)| (p.0@, p.1@))
}

#[verifier::loop_isolation(false)]
fn decode_sms_items(items: &Vec<(String, JsonValue)>) -> (r: Option<Vec<(String, SmsResult)>>)
    ensures
        match r {
            Some(out) => sms_items_spec(items@) == Some(raw_items_view(out@)),
            None => sms_items_spec(items@) is None,
        },
{
    let mut out: Vec<(String, SmsResult)> = Vec::new();
    let mut i: usize = 0;
    proof {
        assert(items@.skip(0) =~= items@);
    }
    while i < items.len()
        invariant
            0 <= i <= items@.len(),
            match sms_items_spec(items@.skip(i as int)) {
                None => sms_items_spec(items@) is None,
                Some(rest) => sms_items_spec(items@) == Some(raw_items_view(out@) + rest),
            },
        decreases items@.len() - i,
    {
        proof {
            assert(items@.skip(i as int)[0] == items@[i as int]);
            assert(items@.skip(i as int).drop_first() =~= items@.skip(i + 1));
        }
        let m = match decode_sms_item(&items[i].1) {
            Some(m) => m,
            None => {
                return None;
            },
        };
        let ghost pre = out@;
        out.push((items[i].0.clone(), m));
        proof {
            assert(raw_items_view(out@) =~= raw_items_view(pre) + seq![
                (items@[i as int].0@, m@),
            ]);
            match sms_items_spec(items@.skip(i + 1)) {
                None => {},
                Some(rest) => {
                    assert(sms_items_spec(items@.skip(i as int)) == Some(
                        seq![(items@[i as int].0@, m@)] + rest,
                    ));
                    assert(raw_items_view(pre) + (seq![(items@[i as int].0@, m@)] + rest)
                        =~= raw_items_view(out@) + rest);
                },
            }
        }
        i = i + 1;
    }
    proof {
        assert(items@.skip(items@.len() as int) =~= Seq::<(String, JsonValue)>::empty());
        assert(raw_items_view(out@) + Seq::<(Seq<char>, SmsResultModel)>::empty() =~= raw_items_view(
            out@,
        ));
    }
    Some(out)
}

/// The resolved pairs, as text.
pub open spec fn resolved_items_view(s: Seq<(RawPhoneNumber, SmsResult)>) -> Seq<
    (Seq<char>, SmsResultModel),
> {
    s.map_values(|p: (RawPhoneNumber, SmsResult)| (p.0@, p.1@))
}

#[verifier::loop_isolation(false)]
fn resolve_sms_items(table: &Vec<(String, RawPhoneNumber)>, raw: Vec<(String, SmsResult)>) -> (r:
    Result<Vec<(RawPhoneNumber, SmsResult)>, TransportError>)
    ensures
        match r {
            Ok(out) => resolve_phone_items_spec(phone_table_view(table@), raw_items_view(raw@))
                == Ok::<Seq<(Seq<char>, SmsResultModel)>, TransportErrModel>(
                resolved_items_view(out@),
            ),
            Err(e) => resolve_phone_items_spec(phone_table_view(table@), raw_items_view(raw@))
                == Err::<Seq<(Seq<char>, SmsResultModel)>, TransportErrModel>(e@),
        },
{
    let ghost tv = phone_table_view(table@);
    let ghost rv = raw_items_view(raw@);
    let mut out: Vec<(RawPhoneNumber, SmsResult)> = Vec::new();
    let mut i: usize = 0;
    proof {
        assert(rv.skip(0) =~= rv);
    }
    while i < raw.len()
        invariant
            0 <= i <= raw@.len(),
            tv == phone_table_view(table@),
            rv == raw_items_view(raw@),
            match resolve_phone_items_spec(tv, rv.skip(i as int)) {
                Ok(rest) => resolve_phone_items_spec(tv, rv) == Ok::<
                    Seq<(Seq<char>, SmsResultModel)>,
                    TransportErrModel,
                >(resolved_items_view(out@) + rest),
                Err(e) => resolve_phone_items_spec(tv, rv) == Err::<
                    Seq<(Seq<char>, SmsResultModel)>,
                    TransportErrModel,
                >(e),
            },
        decreases raw@.len() - i,
    {
        proof {
            assert(rv.skip(i as int)[0] == rv[i as int]);
            assert(rv.skip(i as int).drop_first() =~= rv.skip(i + 1));
        }
        let phone = match match_phone_key(table, raw[i].0.as_str()) {
            Ok(p) => p,
            Err(e) => {
                return Err(e);
            },
        };
        let ghost pre = out@;
        let ghost pv = phone@;
        let text = raw[i].1.clone();
        out.push((phone, text));
        proof {
            assert(resolved_items_view(out@) =~= resolved_items_view(pre) + seq![
                (pv, rv[i as int].1),
            ]);
            match resolve_phone_items_spec(tv, rv.skip(i + 1)) {
                Ok(rest) => {
                    assert(resolve_phone_items_spec(tv, rv.skip(i as int)) == Ok::<
                        Seq<(Seq<char>, SmsResultModel)>,
                        TransportErrModel,
                    >(seq![(pv, rv[i as int].1)] + rest));
                    assert(resolved_items_view(pre) + (seq![(pv, rv[i as int].1)] + rest)
                        =~= resolved_items_view(out@) + rest);
                },
                Err(_) => {},
            }
        }
        i = i + 1;
    }
    proof {
        assert(rv.skip(rv.len() as int) =~= Seq::<(Seq<char>, SmsResultModel)>::empty());
        assert(resolved_items_view(out@) + Seq::<(Seq<char>, SmsResultModel)>::empty()
            =~= resolved_items_view(out@));
    }
    Ok(out)
}

/// Decode an `sms/send` response body against the request that produced it.
pub fn decode_send_sms_json_response(request: &SendSms, json: &str) -> (r: Result<
    SendSmsResponse,
    TransportError,
>)
    ensures
        match r {
            Ok(resp) => decode_send_sms_spec(send_sms_phone_views(request), json_text_value(json@))
                == Ok::<SendSmsResponseModel, TransportErrModel>(resp@),
            Err(e) => decode_send_sms_spec(send_sms_phone_views(request), json_text_value(json@))
                == Err::<SendSmsResponseModel, TransportErrModel>(e@),
        },
{
    let phones = send_request_phones(request);
    let table = build_phone_lookup(&phones);
    let parsed = match parse_json_text(json) {
        Some(v) => v,
        None => {
            return Err(TransportError::MalformedPayload);
        },
    };
    let envelope = match decode_envelope(&parsed) {
        Some(t) => t,
        None => {
            return Err(TransportError::MalformedPayload);
        },
    };
    let balance = match decode_money_field(&parsed, "balance") {
        Some(b) => b,
        None => {
            return Err(TransportError::InvalidScalar);
        },
    };
    let sms: Vec<(RawPhoneNumber, SmsResult)> = match get_field(&parsed, "sms") {
        None => Vec::new(),
        Some(sv) => match sv {
            JsonValue::Object(items) => {
                let raw = match decode_sms_items(items) {
                    Some(raw) => raw,
                    None => {
                        return Err(TransportError::MalformedPayload);
                    },
                };
                match resolve_sms_items(&table, raw) {
                    Ok(resolved) => resolved,
                    Err(e) => {
                        return Err(e);
                    },
                }
            },
            _ => {
                return Err(TransportError::MalformedPayload);
            },
        },
    };
    let resp = SendSmsResponse {
        status: envelope.0,
        status_code: envelope.1,
        status_text: envelope.2,
        balance,
        sms,
    };
    proof {
        if resp.sms@.len() == 0 {
            assert(resp@.sms =~= Seq::<(Seq<char>, SmsResultModel)>::empty());
        }
        assert(resp@.sms =~= resolved_items_view(resp.sms@));
    }
    Ok(resp)
}

} // verus!
