//! Shared decoding steps: the top-level envelope triple and the optional
//! field readers that every endpoint decoder composes.

use vstd::prelude::*;

use crate::Status;
use crate::json::{JsonValue, count_spec, decode_count, decode_money, decode_open_code,
    decode_opt_string, decode_required_code, decode_status, get_field, money_spec, obj_get,
    open_code_spec, opt_string_spec, required_code_spec, status_spec};
use crate::response::opt_text;
use crate::value::StatusCode;

verus! {

/// The envelope triple of `fs`: `status` and `status_code` are load-bearing
/// and must decode; `status_text` may be absent or `null`.
pub open spec fn envelope_spec(fs: Seq<(String, JsonValue)>) -> Option<
    (Status, i32, Option<Seq<char>>),
> {
    match obj_get(fs, "status"@) {
        None => None,
        Some(sv) => match status_spec(sv) {
            None => None,
            Some(st) => match obj_get(fs, "status_code"@) {
                None => None,
                Some(cv) => match required_code_spec(cv) {
                    None => None,
                    Some(code) => match text_field_spec(fs, "status_text"@) {
                        None => None,
                        Some(txt) => Some((st, code, txt)),
                    },
                },
            },
        },
    }
}

/// An optional text field: absent or `null` reads as `None`; a value of any
/// other kind than a string cannot be read at all.
pub open spec fn text_field_spec(fs: Seq<(String, JsonValue)>, name: Seq<char>) -> Option<
    Option<Seq<char>>,
> {
    match obj_get(fs, name) {
        None => Some(None),
        Some(v) => opt_string_spec(v),
    }
}

/// An optional money field: absent or `null` reads as `None`; a present
/// value must satisfy the money rule.
pub open spec fn money_field_spec(fs: Seq<(String, JsonValue)>, name: Seq<char>) -> Option<
    Option<Seq<char>>,
> {
    match obj_get(fs, name) {
        None => Some(None),
        Some(v) => match v {
            JsonValue::Null => Some(None),
            _ => match money_spec(v) {
                Some(m) => Some(Some(m)),
                None => None,
            },
        },
    }
}

/// An optional count field: absent or `null` reads as `None`; a present
/// value goes through the count rule.
pub open spec fn count_field_spec(fs: Seq<(String, JsonValue)>, name: Seq<char>) -> Option<
    Option<u32>,
> {
    match obj_get(fs, name) {
        None => Some(None),
        Some(v) => match v {
            JsonValue::Null => Some(None),
            _ => count_spec(v),
        },
    }
}

/// An optional open-code field: absent or `null` reads as `None`; a present
/// value goes through the open-code rule.
pub open spec fn open_code_field_spec(fs: Seq<(String, JsonValue)>, name: Seq<char>) -> Option<
    Option<i32>,
> {
    match obj_get(fs, name) {
        None => Some(None),
        Some(v) => match v {
            JsonValue::Null => Some(None),
            _ => open_code_spec(v),
        },
    }
}

/// Read the envelope triple of an object's fields.
pub fn decode_envelope(v: &JsonValue) -> (r: Option<(Status, StatusCode, Option<String>)>)
    ensures
        match v {
            JsonValue::Object(fields) => match r {
                Some(t) => envelope_spec(fields@) == Some((t.0, t.1@, opt_text(t.2))),
                None => envelope_spec(fields@) is None,
            },
            _ => r is None,
        },
{
    let sv = match get_field(v, "status") {
        Some(x) => x,
        None => {
            return None;
        },
    };
    let st = match decode_status(sv) {
        Some(x) => x,
        None => {
            return None;
        },
    };
    let cv = match get_field(v, "status_code") {
        Some(x) => x,
        None => {
            return None;
        },
    };
    let code = match decode_required_code(cv) {
        Some(x) => x,
        None => {
            return None;
        },
    };
    let txt = match decode_text_field(v, "status_text") {
        Some(x) => x,
        None => {
            return None;
        },
    };
    Some((st, StatusCode::new(code), txt))
}

/// Read an optional text field of an object value.
pub fn decode_text_field(v: &JsonValue, name: &str) -> (r: Option<Option<String>>)
    ensures
        match v {
            JsonValue::Object(fields) => match r {
                Some(t) => text_field_spec(fields@, name@) == Some(opt_text(t)),
                None => text_field_spec(fields@, name@) is None,
            },
            _ => r matches Some(None),
        },
{
    match get_field(v, name) {
        None => Some(None),
        Some(x) => decode_opt_string(x),
    }
}

/// Read an optional money field of an object value.
pub fn decode_money_field(v: &JsonValue, name: &str) -> (r: Option<Option<String>>)
    ensures
        match v {
            JsonValue::Object(fields) => match r {
                Some(t) => money_field_spec(fields@, name@) == Some(opt_text(t)),
                None => money_field_spec(fields@, name@) is None,
            },
            _ => r matches Some(None),
        },
{
    match get_field(v, name) {
        None => Some(None),
        Some(x) => match x {
            JsonValue::Null => Some(None),
            _ => match decode_money(x) {
                Some(m) => Some(Some(m)),
                None => None,
            },
        },
    }
}

/// Read an optional count field of an object value.
pub fn decode_count_field(v: &JsonValue, name: &str) -> (r: Option<Option<u32>>)
    ensures
        match v {
            JsonValue::Object(fields) => r == count_field_spec(fields@, name@),
            _ => r matches Some(None),
        },
{
    match get_field(v, name) {
        None => Some(None),
        Some(x) => match x {
            JsonValue::Null => Some(None),
            _ => decode_count(x),
        },
    }
}

/// Read an optional open-code field of an object value.
pub fn decode_open_code_field(v: &JsonValue, name: &str) -> (r: Option<Option<i32>>)
    ensures
        match v {
            JsonValue::Object(fields) => r == open_code_field_spec(fields@, name@),
            _ => r matches Some(None),
        },
{
    match get_field(v, name) {
        None => Some(None),
        Some(x) => match x {
            JsonValue::Null => Some(None),
            _ => decode_open_code(x),
        },
    }
}

} // verus!
