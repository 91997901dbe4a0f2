//! The JSON value model that response decoding works on.
//!
//! A response body is parsed once, by `serde_json`, into [`JsonValue`], which
//! keeps every number as its exact source token so that monetary text is
//! never reformatted. Everything downstream of the parse is verified: object
//! field lookup, the flexible scalar rules, and the endpoint decoders.

use vstd::prelude::*;

use crate::Status;
use crate::text::{i32_parse_spec, parse_i32, parse_u32, str_eq, trim_spec, trim_str,
    u32_parse_spec};

verus! {

/// A JSON value, with numbers kept as their exact source tokens.
#[derive(Debug)]
pub enum JsonValue {
    /// The literal `null`.
    Null,
    /// `true` or `false`.
    Bool(bool),
    /// A number, as the exact token text from the source.
    Number(String),
    /// A string, with escapes already decoded.
    String(String),
    /// An array.
    Array(Vec<JsonValue>),
    /// An object: field names with their values, in the parser's order.
    Object(Vec<(String, JsonValue)>),
}

/// The value that parsing a body text yields, or `None` where the text is not
/// valid JSON. Named here because a statement of the whole JSON grammar is
/// out of proportion; the parse is deterministic in the text.
pub uninterp spec fn json_text_value(s: Seq<char>) -> Option<JsonValue>;

/// Relies on `serde_json::from_str::<serde_json::Value>`, built with numbers
/// kept in their source form, so that a token such as `10.00` survives as
/// written. The result is a function of the body text alone.
#[verifier::external_body]
pub fn parse_json_text(s: &str) -> (r: Option<JsonValue>)
    ensures
        r == json_text_value(s@),
{
    match serde_json::from_str::<serde_json::Value>(s) {
        Ok(v) => Some(convert_json(v)),
        Err(_) => None,
    }
}

/// The parsed-tree type of `serde_json`, opaque to the verifier; it only
/// passes between [`parse_json_text`] and [`convert_json`].
#[verifier::external_type_specification]
#[verifier::external_body]
pub struct ExSerdeValue(serde_json::Value);

/// Relies on the `serde_json::Value` constructors: rebuilds the parsed tree
/// as [`JsonValue`], variant for variant, numbers via their source-form
/// rendering.
#[verifier::external_body]
fn convert_json(v: serde_json::Value) -> JsonValue {
    match v {
        serde_json::Value::Null => JsonValue::Null,
        serde_json::Value::Bool(b) => JsonValue::Bool(b),
        serde_json::Value::Number(n) => JsonValue::Number(n.to_string()),
        serde_json::Value::String(s) => JsonValue::String(s),
        serde_json::Value::Array(a) => JsonValue::Array(a.into_iter().map(convert_json).collect()),
        serde_json::Value::Object(o) => JsonValue::Object(
            o.into_iter().map(|(k, x)| (k, convert_json(x))).collect(),
        ),
    }
}

/// The first field of `fields` named `name`, if any.
pub open spec fn obj_get(fields: Seq<(String, JsonValue)>, name: Seq<char>) -> Option<JsonValue>
    decreases fields.len(),
{
    if fields.len() == 0 {
        None
    } else if fields[0].0@ == name {
        Some(fields[0].1)
    } else {
        obj_get(fields.drop_first(), name)
    }
}

/// Look up a field of an object value; `None` for a missing field or a
/// non-object value.
#[verifier::loop_isolation(false)]
pub fn get_field<'a>(v: &'a JsonValue, name: &str) -> (r: Option<&'a JsonValue>)
    ensures
        match v {
            JsonValue::Object(fields) => match r {
                Some(x) => obj_get(fields@, name@) == Some(*x),
                None => obj_get(fields@, name@) is None,
            },
            _ => r is None,
        },
{
    match v {
        JsonValue::Object(fields) => {
            proof {
                assert(fields@.skip(0) =~= fields@);
            }
            let mut i: usize = 0;
            while i < fields.len()
                invariant
                    0 <= i <= fields@.len(),
                    obj_get(fields@, name@) == obj_get(fields@.skip(i as int), name@),
                decreases fields@.len() - i,
            {
                if str_eq(fields[i].0.as_str(), name) {
                    proof {
                        assert(fields@.skip(i as int)[0] == fields@[i as int]);
                    }
                    return Some(&fields[i].1);
                }
                proof {
                    assert(fields@.skip(i as int)[0] == fields@[i as int]);
                    assert(fields@.skip(i as int).drop_first() =~= fields@.skip(i + 1));
                }
                i = i + 1;
            }
            proof {
                assert(fields@.skip(fields@.len() as int) =~= Seq::<(String, JsonValue)>::empty());
            }
            None
        },
        _ => None,
    }
}

/// The money rule: a string keeps its content, a number keeps its exact
/// token, anything else is no money value.
pub open spec fn money_spec(v: JsonValue) -> Option<Seq<char>> {
    match v {
        JsonValue::String(s) => Some(s@),
        JsonValue::Number(n) => Some(n@),
        _ => None,
    }
}

/// The count rule: a number must be a decimal integer that fits `u32`
/// (`None` outside means no count can be read at all); a string is parsed
/// after trimming, and a string that fails to parse is a silent absence
/// (`Some(None)`).
pub open spec fn count_spec(v: JsonValue) -> Option<Option<u32>> {
    match v {
        JsonValue::Number(n) => match u32_parse_spec(n@) {
            Some(c) => Some(Some(c)),
            None => None,
        },
        JsonValue::String(s) => Some(u32_parse_spec(trim_spec(s@))),
        _ => None,
    }
}

/// The open-code rule for `check_status`: a number must be a decimal integer
/// that fits `i32`; a string is parsed after trimming, failure being a silent
/// absence.
pub open spec fn open_code_spec(v: JsonValue) -> Option<Option<i32>> {
    match v {
        JsonValue::Number(n) => match i32_parse_spec(n@) {
            Some(c) => Some(Some(c)),
            None => None,
        },
        JsonValue::String(s) => Some(i32_parse_spec(trim_spec(s@))),
        _ => None,
    }
}

/// The `status` rule: exactly the literal `OK` or `ERROR`.
pub open spec fn status_spec(v: JsonValue) -> Option<Status> {
    match v {
        JsonValue::String(s) => if s@ == "OK"@ {
            Some(Status::Okay)
        } else if s@ == "ERROR"@ {
            Some(Status::Error)
        } else {
            None
        },
        _ => None,
    }
}

/// The `status_code` rule: a bare JSON integer that fits `i32`.
pub open spec fn required_code_spec(v: JsonValue) -> Option<i32> {
    match v {
        JsonValue::Number(n) => i32_parse_spec(n@),
        _ => None,
    }
}

/// The optional-text rule: a string or an explicit `null`.
pub open spec fn opt_string_spec(v: JsonValue) -> Option<Option<Seq<char>>> {
    match v {
        JsonValue::String(s) => Some(Some(s@)),
        JsonValue::Null => Some(None),
        _ => None,
    }
}

/// Read a money value.
pub fn decode_money(v: &JsonValue) -> (r: Option<String>)
    ensures
        match r {
            Some(s) => money_spec(*v) == Some(s@),
            None => money_spec(*v) is None,
        },
{
    match v {
        JsonValue::String(s) => Some(s.clone()),
        JsonValue::Number(n) => Some(n.clone()),
        _ => None,
    }
}

/// Read a count value.
pub fn decode_count(v: &JsonValue) -> (r: Option<Option<u32>>)
    ensures
        r == count_spec(*v),
{
    match v {
        JsonValue::Number(n) => match parse_u32(n.as_str()) {
            Some(c) => Some(Some(c)),
            None => None,
        },
        JsonValue::String(s) => {
            let trimmed = trim_str(s.as_str());
            Some(parse_u32(trimmed.as_str()))
        },
        _ => None,
    }
}

/// Read an open status code that may arrive as a number or a string.
pub fn decode_open_code(v: &JsonValue) -> (r: Option<Option<i32>>)
    ensures
        r == open_code_spec(*v),
{
    match v {
        JsonValue::Number(n) => match parse_i32(n.as_str()) {
            Some(c) => Some(Some(c)),
            None => None,
        },
        JsonValue::String(s) => {
            let trimmed = trim_str(s.as_str());
            Some(parse_i32(trimmed.as_str()))
        },
        _ => None,
    }
}

/// Read a top-level or per-item `status` literal.
pub fn decode_status(v: &JsonValue) -> (r: Option<Status>)
    ensures
        r == status_spec(*v),
{
    proof {
        reveal_strlit("OK");
        reveal_strlit("ERROR");
    }
    match v {
        JsonValue::String(s) => {
            if str_eq(s.as_str(), "OK") {
                Some(Status::Okay)
            } else if str_eq(s.as_str(), "ERROR") {
                Some(Status::Error)
            } else {
                None
            }
        },
        _ => None,
    }
}

/// Read a required integer `status_code`.
pub fn decode_required_code(v: &JsonValue) -> (r: Option<i32>)
    ensures
        r == required_code_spec(*v),
{
    match v {
        JsonValue::Number(n) => parse_i32(n.as_str()),
        _ => None,
    }
}

/// Read an optional text field.
pub fn decode_opt_string(v: &JsonValue) -> (r: Option<Option<String>>)
    ensures
        match r {
            Some(Some(s)) => opt_string_spec(*v) == Some(Some(s@)),
            Some(None) => opt_string_spec(*v) == Some(None::<Seq<char>>),
            None => opt_string_spec(*v) is None,
        },
{
    match v {
        JsonValue::String(s) => Some(Some(s.clone())),
        JsonValue::Null => Some(None),
        _ => None,
    }
}

} // verus!
