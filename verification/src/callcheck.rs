//! Decoders for the call-authentication endpoints: `callcheck/add` and
//! `callcheck/status`.

use vstd::prelude::*;

use crate::decode::{decode_envelope, decode_open_code_field, decode_text_field, envelope_spec,
    open_code_field_spec, text_field_spec};
use crate::error::{TransportErrModel, TransportError};
use crate::json::{JsonValue, json_text_value, parse_json_text};
use crate::response::{CheckCallAuthStatusResponse, CheckCallAuthStatusResponseModel,
    StartCallAuthResponse, StartCallAuthResponseModel};
use crate::text::trim_spec;
use crate::value::{CallCheckId, CallCheckStatusCode, RawPhoneNumber, blank};

verus! {

/// The start-call-auth decode: the envelope triple, a validated check id, a
/// validated call phone, and two plain texts.
pub open spec fn decode_start_call_auth_spec(body: Option<JsonValue>) -> Result<
    StartCallAuthResponseModel,
    TransportErrModel,
> {
    match body {
        None => Err(TransportErrModel::Malformed),
        Some(v) => match v {
            JsonValue::Object(fields) => match envelope_spec(fields@) {
                None => Err(TransportErrModel::Malformed),
                Some(t) => match text_field_spec(fields@, "check_id"@) {
                    None => Err(TransportErrModel::Malformed),
                    Some(check_id_raw) => match text_field_spec(fields@, "call_phone"@) {
                        None => Err(TransportErrModel::Malformed),
                        Some(call_phone_raw) => match text_field_spec(
                            fields@,
                            "call_phone_pretty"@,
                        ) {
                            None => Err(TransportErrModel::Malformed),
                            Some(pretty) => match text_field_spec(fields@, "call_phone_html"@) {
                                None => Err(TransportErrModel::Malformed),
                                Some(html) => {
                                    if check_id_raw matches Some(c) && blank(c) {
                                        Err(TransportErrModel::InvalidCheckId(check_id_raw->0))
                                    } else if call_phone_raw matches Some(p) && blank(p) {
                                        Err(TransportErrModel::InvalidCallPhone(call_phone_raw->0))
                                    } else {
                                        Ok(
                                            StartCallAuthResponseModel {
                                                status: t.0,
                                                status_code: t.1,
                                                status_text: t.2,
                                                check_id: match check_id_raw {
                                                    Some(c) => Some(trim_spec(c)),
                                                    None => None,
                                                },
                                                call_phone: match call_phone_raw {
                                                    Some(p) => Some(trim_spec(p)),
                                                    None => None,
                                                },
                                                call_phone_pretty: pretty,
                                                call_phone_html: html,
                                            },
                                        )
                                    }
                                },
                            },
                        },
                    },
                },
            },
            _ => Err(TransportErrModel::Malformed),
        },
    }
}

/// Decode a `callcheck/add` response body.
pub fn decode_start_call_auth_json_response(json: &str) -> (r: Result<
    StartCallAuthResponse,
    TransportError,
>)
    ensures
        match r {
            Ok(resp) => decode_start_call_auth_spec(json_text_value(json@)) == Ok::<
                StartCallAuthResponseModel,
                TransportErrModel,
            >(resp@),
            Err(e) => decode_start_call_auth_spec(json_text_value(json@)) == Err::<
                StartCallAuthResponseModel,
                TransportErrModel,
            >(e@),
        },
{
    let parsed = match parse_json_text(json) {
        Some(v) => v,
        None => {
            return Err(TransportError::MalformedPayload);
        },
    };
    let envelope = match decode_envelope(&parsed) {
        Some(t) => t,
        None => {
            return Err(TransportError::MalformedPayload);
        },
    };
    let check_id_raw = match decode_text_field(&parsed, "check_id") {
        Some(x) => x,
        None => {
            return Err(TransportError::MalformedPayload);
        },
    };
    let call_phone_raw = match decode_text_field(&parsed, "call_phone") {
        Some(x) => x,
        None => {
            return Err(TransportError::MalformedPayload);
        },
    };
    let call_phone_pretty = match decode_text_field(&parsed, "call_phone_pretty") {
        Some(x) => x,
        None => {
            return Err(TransportError::MalformedPayload);
        },
    };
    let call_phone_html = match decode_text_field(&parsed, "call_phone_html") {
        Some(x) => x,
        None => {
            return Err(TransportError::MalformedPayload);
        },
    };
    let check_id: Option<CallCheckId> = match check_id_raw {
        Some(value) => match CallCheckId::new(value.as_str()) {
            Ok(id) => Some(id),
            Err(_) => {
                return Err(TransportError::InvalidCheckId { value });
            },
        },
        None => None,
    };
    let call_phone: Option<RawPhoneNumber> = match call_phone_raw {
        Some(value) => match RawPhoneNumber::new(value.as_str()) {
            Ok(p) => Some(p),
            Err(_) => {
                return Err(TransportError::InvalidCallPhone { value });
            },
        },
        None => None,
    };
    Ok(
        StartCallAuthResponse {
            status: envelope.0,
            status_code: envelope.1,
            status_text: envelope.2,
            check_id,
            call_phone,
            call_phone_pretty,
            call_phone_html,
        },
    )
}

/// The call-auth status decode: the envelope triple, an open status code
/// that may arrive as a number or a string, and its description.
pub open spec fn decode_check_call_auth_status_spec(body: Option<JsonValue>) -> Result<
    CheckCallAuthStatusResponseModel,
    TransportErrModel,
> {
    match body {
        None => Err(TransportErrModel::Malformed),
        Some(v) => match v {
            JsonValue::Object(fields) => match envelope_spec(fields@) {
                None => Err(TransportErrModel::Malformed),
                Some(t) => match open_code_field_spec(fields@, "check_status"@) {
                    None => Err(TransportErrModel::InvalidScalar),
                    Some(check_status) => match text_field_spec(fields@, "check_status_text"@) {
                        None => Err(TransportErrModel::Malformed),
                        Some(check_status_text) => Ok(
                            CheckCallAuthStatusResponseModel {
                                status: t.0,
                                status_code: t.1,
                                status_text: t.2,
                                check_status,
                                check_status_text,
                            },
                        ),
                    },
                },
            },
            _ => Err(TransportErrModel::Malformed),
        },
    }
}

/// Decode a `callcheck/status` response body; an unparsable string code is a
/// silent absence, never a failure.
pub fn decode_check_call_auth_status_json_response(json: &str) -> (r: Result<
    CheckCallAuthStatusResponse,
    TransportError,
>)
    ensures
        match r {
            Ok(resp) => decode_check_call_auth_status_spec(json_text_value(json@)) == Ok::<
                CheckCallAuthStatusResponseModel,
                TransportErrModel,
            >(resp@),
            Err(e) => decode_check_call_auth_status_spec(json_text_value(json@)) == Err::<
                CheckCallAuthStatusResponseModel,
                TransportErrModel,
            >(e@),
        },
{
    let parsed = match parse_json_text(json) {
        Some(v) => v,
        None => {
            return Err(TransportError::MalformedPayload);
        },
    };
    let envelope = match decode_envelope(&parsed) {
        Some(t) => t,
        None => {
            return Err(TransportError::MalformedPayload);
        },
    };
    let check_status_code = match decode_open_code_field(&parsed, "check_status") {
        Some(c) => c,
        None => {
            return Err(TransportError::InvalidScalar);
        },
    };
    let check_status: Option<CallCheckStatusCode> = match check_status_code {
        Some(code) => Some(CallCheckStatusCode::new(code)),
        None => None,
    };
    let check_status_text = match decode_text_field(&parsed, "check_status_text") {
        Some(x) => x,
        None => {
            return Err(TransportError::MalformedPayload);
        },
    };
    Ok(
        CheckCallAuthStatusResponse {
            status: envelope.0,
            status_code: envelope.1,
            status_text: envelope.2,
            check_status,
            check_status_text,
        },
    )
}

} // verus!
