//! Decoder for the callback endpoints: `callback/add`, `callback/del`, and
//! `callback/get`.

use vstd::prelude::*;

use crate::decode::{decode_envelope, envelope_spec};
use crate::error::{TransportErrModel, TransportError};
use crate::json::{JsonValue, get_field, json_text_value, obj_get, parse_json_text};
use crate::response::{CallbacksResponse, CallbacksResponseModel};
use crate::text::trim_spec;
use crate::value::{CallbackUrl, blank, has_http_scheme};

verus! {

/// Every element read as a string, or nothing if one is not a string.
pub open spec fn url_texts_spec(items: Seq<JsonValue>) -> Option<Seq<Seq<char>>>
    decreases items.len(),
{
    if items.len() == 0 {
        Some(Seq::empty())
    } else {
        match items[0] {
            JsonValue::String(s) => match url_texts_spec(items.drop_first()) {
                None => None,
                Some(rest) => Some(seq![s@] + rest),
            },
            _ => None,
        }
    }
}

/// Every text validated as a callback URL, or the first one that fails.
pub open spec fn urls_spec(texts: Seq<Seq<char>>) -> Result<Seq<Seq<char>>, TransportErrModel>
    decreases texts.len(),
{
    if texts.len() == 0 {
        Ok(Seq::empty())
    } else {
        if blank(texts[0]) || !has_http_scheme(trim_spec(texts[0])) {
            Err(TransportErrModel::InvalidCallbackUrl(texts[0]))
        } else {
            match urls_spec(texts.drop_first()) {
                Err(e) => Err(e),
                Ok(rest) => Ok(seq![trim_spec(texts[0])] + rest),
            }
        }
    }
}

/// The callbacks decode: the envelope triple and the validated URL list.
pub open spec fn decode_callbacks_spec(body: Option<JsonValue>) -> Result<
    CallbacksResponseModel,
    TransportErrModel,
> {
    match body {
        None => Err(TransportErrModel::Malformed),
        Some(v) => match v {
            JsonValue::Object(fields) => match envelope_spec(fields@) {
                None => Err(TransportErrModel::Malformed),
                Some(t) => match obj_get(fields@, "callback"@) {
                    None => Ok(
                        CallbacksResponseModel {
                            status: t.0,
                            status_code: t.1,
                            status_text: t.2,
                            callback: Seq::empty(),
                        },
                    ),
                    Some(cv) => match cv {
                        JsonValue::Array(items) => match url_texts_spec(items@) {
                            None => Err(TransportErrModel::Malformed),
                            Some(texts) => match urls_spec(texts) {
                                Err(e) => Err(e),
                                Ok(urls) => Ok(
                                    CallbacksResponseModel {
                                        status: t.0,
                                        status_code: t.1,
                                        status_text: t.2,
                                        callback: urls,
                                    },
                                ),
                            },
                        },
                        _ => Err(TransportErrModel::Malformed),
                    },
                },
            },
            _ => Err(TransportErrModel::Malformed),
        },
    }
}

#[verifier::loop_isolation(false)]
fn decode_url_texts(items: &Vec<JsonValue>) -> (r: Option<Vec<String>>)
    ensures
        match r {
            Some(out) => url_texts_spec(items@) == Some(out.deep_view()),
            None => url_texts_spec(items@) is None,
        },
{
    let mut out: Vec<String> = Vec::new();
    let mut i: usize = 0;
    proof {
        assert(items@.skip(0) =~= items@);
    }
    while i < items.len()
        invariant
            0 <= i <= items@.len(),
            match url_texts_spec(items@.skip(i as int)) {
                None => url_texts_spec(items@) is None,
                Some(rest) => url_texts_spec(items@) == Some(out.deep_view() + rest),
            },
        decreases items@.len() - i,
    {
        proof {
            assert(items@.skip(i as int)[0] == items@[i as int]);
            assert(items@.skip(i as int).drop_first() =~= items@.skip(i + 1));
        }
        match &items[i] {
            JsonValue::String(s) => {
                let ghost pre = out@;
                let ghost pre_dv = out.deep_view();
                let ghost sv = s@;
                out.push(s.clone());
                proof {
                    let dv = out.deep_view();
                    let tgt = pre_dv + seq![sv];
                    assert forall|j: int| 0 <= j < dv.len() implies dv[j] == tgt[j] by {
                        assert(dv[j] == out@[j]@);
                        if j < pre.len() {
                            assert(out@[j] == pre[j]);
                            assert(pre_dv[j] == pre[j]@);
                        }
                    }
                    assert(dv =~= tgt);
                    match url_texts_spec(items@.skip(i + 1)) {
                        None => {},
                        Some(rest) => {
                            assert(url_texts_spec(items@.skip(i as int)) == Some(
                                seq![sv] + rest,
                            ));
                            assert(pre_dv + (seq![sv] + rest) =~= (pre_dv + seq![sv]) + rest);
                        },
                    }
                }
                i = i + 1;
            },
            _ => {
                return None;
            },
        }
    }
    proof {
        assert(items@.skip(items@.len() as int) =~= Seq::<JsonValue>::empty());
        assert(out.deep_view() + Seq::<Seq<char>>::empty() =~= out.deep_view());
    }
    Some(out)
}

/// The validated URLs, as text.
pub open spec fn urls_view(s: Seq<CallbackUrl>) -> Seq<Seq<char>> {
    s.map_values(|u: CallbackUrl| u@)
}

#[verifier::loop_isolation(false)]
fn validate_urls(texts: Vec<String>) -> (r: Result<Vec<CallbackUrl>, TransportError>)
    ensures
        match r {
            Ok(out) => urls_spec(texts.deep_view()) == Ok::<Seq<Seq<char>>, TransportErrModel>(
                urls_view(out@),
            ),
            Err(e) => urls_spec(texts.deep_view()) == Err::<Seq<Seq<char>>, TransportErrModel>(e@),
        },
{
    let ghost tv = texts.deep_view();
    let mut out: Vec<CallbackUrl> = Vec::new();
    let mut i: usize = 0;
    proof {
        assert(tv.skip(0) =~= tv);
    }
    while i < texts.len()
        invariant
            0 <= i <= texts@.len(),
            tv == texts.deep_view(),
            match urls_spec(tv.skip(i as int)) {
                Ok(rest) => urls_spec(tv) == Ok::<Seq<Seq<char>>, TransportErrModel>(
                    urls_view(out@) + rest,
                ),
                Err(e) => urls_spec(tv) == Err::<Seq<Seq<char>>, TransportErrModel>(e),
            },
        decreases texts@.len() - i,
    {
        proof {
            assert(tv.skip(i as int)[0] == tv[i as int]);
            assert(tv.skip(i as int).drop_first() =~= tv.skip(i + 1));
            assert(tv[i as int] == texts@[i as int]@);
        }
        let url = match CallbackUrl::new(texts[i].as_str()) {
            Ok(u) => u,
            Err(_) => {
                let value = texts[i].clone();
                return Err(TransportError::InvalidCallbackUrl { value });
            },
        };
        let ghost pre = out@;
        let ghost uv = url@;
        out.push(url);
        proof {
            assert(urls_view(out@) =~= urls_view(pre) + seq![uv]);
            match urls_spec(tv.skip(i + 1)) {
                Ok(rest) => {
                    assert(urls_spec(tv.skip(i as int)) == Ok::<Seq<Seq<char>>, TransportErrModel>(
                        seq![trim_spec(tv[i as int])] + rest,
                    ));
                    assert(urls_view(pre) + (seq![uv] + rest) =~= urls_view(out@) + rest);
                },
                Err(_) => {},
            }
        }
        i = i + 1;
    }
    proof {
        assert(tv.skip(tv.len() as int) =~= Seq::<Seq<char>>::empty());
        assert(urls_view(out@) + Seq::<Seq<char>>::empty() =~= urls_view(out@));
    }
    Ok(out)
}

/// Decode a callback-family response body.
pub fn decode_callbacks_json_response(json: &str) -> (r: Result<CallbacksResponse, TransportError>)
    ensures
        match r {
            Ok(resp) => decode_callbacks_spec(json_text_value(json@)) == Ok::<
                CallbacksResponseModel,
                TransportErrModel,
            >(resp@),
            Err(e) => decode_callbacks_spec(json_text_value(json@)) == Err::<
                CallbacksResponseModel,
                TransportErrModel,
            >(e@),
        },
{
    let parsed = match parse_json_text(json) {
        Some(v) => v,
        None => {
            return Err(TransportError::MalformedPayload);
        },
    };
    let envelope = match decode_envelope(&parsed) {
        Some(t) => t,
        None => {
            return Err(TransportError::MalformedPayload);
        },
    };
    let callback: Vec<CallbackUrl> = match get_field(&parsed, "callback") {
        None => Vec::new(),
        Some(cv) => match cv {
            JsonValue::Array(items) => {
                let texts = match decode_url_texts(items) {
                    Some(texts) => texts,
                    None => {
                        return Err(TransportError::MalformedPayload);
                    },
                };
                match validate_urls(texts) {
                    Ok(urls) => urls,
                    Err(e) => {
                        return Err(e);
                    },
                }
            },
            _ => {
                return Err(TransportError::MalformedPayload);
            },
        },
    };
    let resp = CallbacksResponse {
        status: envelope.0,
        status_code: envelope.1,
        status_text: envelope.2,
        callback,
    };
    proof {
        if resp.callback@.len() == 0 {
            assert(resp@.callback =~= Seq::<Seq<char>>::empty());
        }
        assert(resp@.callback =~= urls_view(resp.callback@));
    }
    Ok(resp)
}

} // verus!
