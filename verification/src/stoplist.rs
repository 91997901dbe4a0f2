//! Decoder for the `stoplist/get` endpoint.

use vstd::prelude::*;

use crate::decode::{decode_envelope, envelope_spec};
use crate::error::{TransportErrModel, TransportError};
use crate::json::{JsonValue, get_field, json_text_value, obj_get, parse_json_text};
use crate::response::{StoplistResponse, StoplistResponseModel};
use crate::text::trim_spec;
use crate::value::{RawPhoneNumber, blank};

verus! {

/// Every entry's note read as a string, under its raw key.
pub open spec fn stoplist_notes_spec(items: Seq<(String, JsonValue)>) -> Option<
    Seq<(Seq<char>, Seq<char>)>,
>
    decreases items.len(),
{
    if items.len() == 0 {
        Some(Seq::empty())
    } else {
        match items[0].1 {
            JsonValue::String(note) => match stoplist_notes_spec(items.drop_first()) {
                None => None,
                Some(rest) => Some(seq![(items[0].0@, note@)] + rest),
            },
            _ => None,
        }
    }
}

/// Every raw key validated as a phone number, or the first blank key.
pub open spec fn stoplist_keys_spec(items: Seq<(Seq<char>, Seq<char>)>) -> Result<
    Seq<(Seq<char>, Seq<char>)>,
    TransportErrModel,
>
    decreases items.len(),
{
    if items.len() == 0 {
        Ok(Seq::empty())
    } else {
        if blank(items[0].0) {
            Err(TransportErrModel::InvalidStoplistPhoneKey(items[0].0))
        } else {
            match stoplist_keys_spec(items.drop_first()) {
                Err(e) => Err(e),
                Ok(rest) => Ok(seq![(trim_spec(items[0].0), items[0].1)] + rest),
            }
        }
    }
}

/// The stoplist decode: the envelope triple and the validated entries.
pub open spec fn decode_stoplist_spec(body: Option<JsonValue>) -> Result<
    StoplistResponseModel,
    TransportErrModel,
> {
    match body {
        None => Err(TransportErrModel::Malformed),
        Some(v) => match v {
            JsonValue::Object(fields) => match envelope_spec(fields@) {
                None => Err(TransportErrModel::Malformed),
                Some(t) => match obj_get(fields@, "stoplist"@) {
                    None => Ok(
                        StoplistResponseModel {
                            status: t.0,
                            status_code: t.1,
                            status_text: t.2,
                            stoplist: Seq::empty(),
                        },
                    ),
                    Some(sv) => match sv {
                        JsonValue::Object(items) => match stoplist_notes_spec(items@) {
                            None => Err(TransportErrModel::Malformed),
                            Some(raw) => match stoplist_keys_spec(raw) {
                                Err(e) => Err(e),
                                Ok(entries) => Ok(
                                    StoplistResponseModel {
                                        status: t.0,
                                        status_code: t.1,
                                        status_text: t.2,
                                        stoplist: entries,
                                    },
                                ),
                            },
                        },
                        _ => Err(TransportErrModel::Malformed),
                    },
                },
            },
            _ => Err(TransportErrModel::Malformed),
        },
    }
}

/// The raw pairs, as text.
pub open spec fn raw_notes_view(s: Seq<(String, String)>) -> Seq<(Seq<char>, Seq<char>)> {
    s.map_values(|p: (String, String)| (p.0@, p.1@))
}

#[verifier::loop_isolation(false)]
fn decode_stoplist_notes(items: &Vec<(String, JsonValue)>) -> (r: Option<Vec<(String, String)>>)
    ensures
        match r {
            Some(out) => stoplist_notes_spec(items@) == Some(raw_notes_view(out@)),
            None => stoplist_notes_spec(items@) is None,
        },
{
    let mut out: Vec<(String, String)> = Vec::new();
    let mut i: usize = 0;
    proof {
        assert(items@.skip(0) =~= items@);
    }
    while i < items.len()
        invariant
            0 <= i <= items@.len(),
            match stoplist_notes_spec(items@.skip(i as int)) {
                None => stoplist_notes_spec(items@) is None,
                Some(rest) => stoplist_notes_spec(items@) == Some(raw_notes_view(out@) + rest),
            },
        decreases items@.len() - i,
    {
        proof {
            assert(items@.skip(i as int)[0] == items@[i as int]);
            assert(items@.skip(i as int).drop_first() =~= items@.skip(i + 1));
        }
        let note = match &items[i].1 {
            JsonValue::String(note) => note.clone(),
            _ => {
                return None;
            },
        };
        let ghost pre = out@;
        out.push((items[i].0.clone(), note));
        proof {
            assert(raw_notes_view(out@) =~= raw_notes_view(pre) + seq![
                (items@[i as int].0@, items@[i as int].1->String_0@),
            ]);
            match stoplist_notes_spec(items@.skip(i + 1)) {
                None => {},
                Some(rest) => {
                    assert(stoplist_notes_spec(items@.skip(i as int)) == Some(
                        seq![(items@[i as int].0@, items@[i as int].1->String_0@)] + rest,
                    ));
                    assert(raw_notes_view(pre) + (seq![
                        (items@[i as int].0@, items@[i as int].1->String_0@),
                    ] + rest) =~= raw_notes_view(out@) + rest);
                },
            }
        }
        i = i + 1;
    }
    proof {
        assert(items@.skip(items@.len() as int) =~= Seq::<(String, JsonValue)>::empty());
        assert(raw_notes_view(out@) + Seq::<(Seq<char>, Seq<char>)>::empty() =~= raw_notes_view(
            out@,
        ));
    }
    Some(out)
}

/// The validated pairs, as text.
pub open spec fn entries_view(s: Seq<(RawPhoneNumber, String)>) -> Seq<(Seq<char>, Seq<char>)> {
    s.map_values(|p: (RawPhoneNumber, String)| (p.0@, p.1@))
}

#[verifier::loop_isolation(false)]
fn validate_stoplist_keys(raw: Vec<(String, String)>) -> (r: Result<
    Vec<(RawPhoneNumber, String)>,
    TransportError,
>)
    ensures
        match r {
            Ok(out) => stoplist_keys_spec(raw_notes_view(raw@)) == Ok::<
                Seq<(Seq<char>, Seq<char>)>,
                TransportErrModel,
            >(entries_view(out@)),
            Err(e) => stoplist_keys_spec(raw_notes_view(raw@)) == Err::<
                Seq<(Seq<char>, Seq<char>)>,
                TransportErrModel,
            >(e@),
        },
{
    let ghost rv = raw_notes_view(raw@);
    let mut out: Vec<(RawPhoneNumber, String)> = Vec::new();
    let mut i: usize = 0;
    proof {
        assert(rv.skip(0) =~= rv);
    }
    while i < raw.len()
        invariant
            0 <= i <= raw@.len(),
            rv == raw_notes_view(raw@),
            match stoplist_keys_spec(rv.skip(i as int)) {
                Ok(rest) => stoplist_keys_spec(rv) == Ok::<
                    Seq<(Seq<char>, Seq<char>)>,
                    TransportErrModel,
                >(entries_view(out@) + rest),
                Err(e) => stoplist_keys_spec(rv) == Err::<
                    Seq<(Seq<char>, Seq<char>)>,
                    TransportErrModel,
                >(e),
            },
        decreases raw@.len() - i,
    {
        proof {
            assert(rv.skip(i as int)[0] == rv[i as int]);
            assert(rv.skip(i as int).drop_first() =~= rv.skip(i + 1));
        }
        let phone = match RawPhoneNumber::new(raw[i].0.as_str()) {
            Ok(p) => p,
            Err(_) => {
                let key = raw[i].0.clone();
                return Err(TransportError::InvalidStoplistPhoneKey { key });
            },
        };
        let ghost pre = out@;
        let ghost pv = phone@;
        let note = raw[i].1.clone();
        out.push((phone, note));
        proof {
            assert(entries_view(out@) =~= entries_view(pre) + seq![(pv, rv[i as int].1)]);
            match stoplist_keys_spec(rv.skip(i + 1)) {
                Ok(rest) => {
                    assert(stoplist_keys_spec(rv.skip(i as int)) == Ok::<
                        Seq<(Seq<char>, Seq<char>)>,
                        TransportErrModel,
                    >(seq![(pv, rv[i as int].1)] + rest));
                    assert(entries_view(pre) + (seq![(pv, rv[i as int].1)] + rest) =~= entries_view(
                        out@,
                    ) + rest);
                },
                Err(_) => {},
            }
        }
        i = i + 1;
    }
    proof {
        assert(rv.skip(rv.len() as int) =~= Seq::<(Seq<char>, Seq<char>)>::empty());
        assert(entries_view(out@) + Seq::<(Seq<char>, Seq<char>)>::empty() =~= entries_view(out@));
    }
    Ok(out)
}

/// Decode a `stoplist/get` response body.
pub fn decode_get_stoplist_json_response(json: &str) -> (r: Result<StoplistResponse, TransportError>)
    ensures
        match r {
            Ok(resp) => decode_stoplist_spec(json_text_value(json@)) == Ok::<
                StoplistResponseModel,
                TransportErrModel,
            >(resp@),
            Err(e) => decode_stoplist_spec(json_text_value(json@)) == Err::<
                StoplistResponseModel,
                TransportErrModel,
            >(e@),
        },
{
    let parsed = match parse_json_text(json) {
        Some(v) => v,
        None => {
            return Err(TransportError::MalformedPayload);
        },
    };
    let envelope = match decode_envelope(&parsed) {
        Some(t) => t,
        None => {
            return Err(TransportError::MalformedPayload);
        },
    };
    let stoplist: Vec<(RawPhoneNumber, String)> = match get_field(&parsed, "stoplist") {
        None => Vec::new(),
        Some(sv) => match sv {
            JsonValue::Object(items) => {
                let raw = match decode_stoplist_notes(items) {
                    Some(raw) => raw,
                    None => {
                        return Err(TransportError::MalformedPayload);
                    },
                };
                match validate_stoplist_keys(raw) {
                    Ok(entries) => entries,
                    Err(e) => {
                        return Err(e);
                    },
                }
            },
            _ => {
                return Err(TransportError::MalformedPayload);
            },
        },
    };
    let resp = StoplistResponse {
        status: envelope.0,
        status_code: envelope.1,
        status_text: envelope.2,
        stoplist,
    };
    proof {
        if resp.stoplist@.len() == 0 {
            assert(resp@.stoplist =~= Seq::<(Seq<char>, Seq<char>)>::empty());
        }
        assert(resp@.stoplist =~= entries_view(resp.stoplist@));
    }
    Ok(resp)
}

} // verus!
