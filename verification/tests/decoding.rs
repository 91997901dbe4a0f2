//! Tests for the response decoders.

use smsru::account::{
    decode_balance_json_response, decode_free_usage_json_response,
    decode_limit_usage_json_response, decode_senders_json_response,
    decode_status_only_json_response,
};
use smsru::callback::decode_callbacks_json_response;
use smsru::callcheck::{
    decode_check_call_auth_status_json_response, decode_start_call_auth_json_response,
};
use smsru::check_cost::decode_check_cost_json_response;
use smsru::check_status::decode_check_status_json_response;
use smsru::send_sms::decode_send_sms_json_response;
use smsru::stoplist::decode_get_stoplist_json_response;
use smsru::{
    CallCheckId, CallCheckStatusCode, CheckCost, CheckCostOptions, CheckStatus,
    KnownCallCheckStatusCode, MessageText, RawPhoneNumber, SendOptions, SendSms, SmsId, Status,
    StatusCode, TransportError,
};

#[test]
fn decode_json_response_maps_phone_keys_using_request_context() {
    let p1 = RawPhoneNumber::new("+79251234567").unwrap();
    let msg = MessageText::new("hello").unwrap();
    let req = SendSms::to_many(vec![p1.clone()], msg, SendOptions::default()).unwrap();

    let json = r#"
    {
      "status": "OK",
      "status_code": 100,
      "balance": 12.34,
      "sms": {
        "+79251234567": {
          "status": "OK",
          "status_code": 100,
          "sms_id": "abc123"
        }
      }
    }
    "#;

    let resp = decode_send_sms_json_response(&req, json).unwrap();
    assert_eq!(resp.status, Status::Okay);
    assert_eq!(resp.status_code, StatusCode::new(100));
    assert_eq!(resp.balance.as_deref(), Some("12.34"));
    assert_eq!(resp.sms.len(), 1);

    let result = resp.sms_for(&p1).unwrap();
    assert_eq!(result.status, Status::Okay);
    assert_eq!(result.status_code, StatusCode::new(100));
    assert_eq!(result.sms_id.as_deref(), Some("abc123"));
}

#[test]
fn cost_decode_json_response_maps_phone_keys_using_request_context() {
    let p1 = RawPhoneNumber::new("+79251234567").unwrap();
    let msg = MessageText::new("hello").unwrap();
    let req = CheckCost::to_many(vec![p1.clone()], msg, CheckCostOptions::default()).unwrap();

    let json = r#"
    {
      "status": "OK",
      "status_code": 100,
      "total_cost": 0.00,
      "total_sms": 1,
      "sms": {
        "+79251234567": {
          "status": "OK",
          "status_code": 100,
          "cost": 0.00,
          "sms": 1
        }
      }
    }
    "#;

    let resp = decode_check_cost_json_response(&req, json).unwrap();
    assert_eq!(resp.status, Status::Okay);
    assert_eq!(resp.status_code, StatusCode::new(100));
    assert_eq!(resp.total_cost.as_deref(), Some("0.00"));
    assert_eq!(resp.total_sms, Some(1));
    assert_eq!(resp.sms.len(), 1);

    let result = resp.sms_for(&p1).unwrap();
    assert_eq!(result.status, Status::Okay);
    assert_eq!(result.status_code, StatusCode::new(100));
    assert_eq!(result.cost.as_deref(), Some("0.00"));
    assert_eq!(result.sms, Some(1));
}

#[test]
fn cost_decode_json_response_supports_trimmed_keys_and_string_cost() {
    let p1 = RawPhoneNumber::new("+79251234567").unwrap();
    let msg = MessageText::new("hello").unwrap();
    let req = CheckCost::to_many(vec![p1.clone()], msg, CheckCostOptions::default()).unwrap();

    let json = r#"
    {
      "status": "OK",
      "status_code": 100,
      "total_cost": "5.00",
      "sms": {
        " +79251234567 ": {
          "status": "OK",
          "status_code": 100,
          "cost": "0.50",
          "sms": 1
        }
      }
    }
    "#;

    let resp = decode_check_cost_json_response(&req, json).unwrap();
    assert_eq!(resp.total_cost.as_deref(), Some("5.00"));
    let result = resp.sms_for(&p1).unwrap();
    assert_eq!(result.cost.as_deref(), Some("0.50"));
}

#[test]
fn decode_json_response_keeps_per_recipient_errors_inside_payload() {
    let ok_phone = RawPhoneNumber::new("+79251234567").unwrap();
    let err_phone = RawPhoneNumber::new("+74993221627").unwrap();
    let msg = MessageText::new("hello").unwrap();
    let req = CheckCost::to_many(
        vec![ok_phone.clone(), err_phone.clone()],
        msg,
        CheckCostOptions::default(),
    )
    .unwrap();

    let json = r#"
    {
      "status": "OK",
      "status_code": 100,
      "sms": {
        "79251234567": {
          "status": "OK",
          "status_code": 100,
          "cost": 0.00,
          "sms": 1
        },
        "74993221627": {
          "status": "ERROR",
          "status_code": 207,
          "status_text": "No route"
        }
      }
    }
    "#;

    let response = decode_check_cost_json_response(&req, json).unwrap();
    assert_eq!(response.status, Status::Okay);
    assert_eq!(response.sms_for(&ok_phone).unwrap().status, Status::Okay);
    assert_eq!(response.sms_for(&err_phone).unwrap().status, Status::Error);
    assert_eq!(
        response.sms_for(&err_phone).unwrap().status_code,
        StatusCode::new(207)
    );
}

#[test]
fn cost_decode_json_response_parses_top_level_error_payload() {
    let p1 = RawPhoneNumber::new("+79251234567").unwrap();
    let msg = MessageText::new("hello").unwrap();
    let req = CheckCost::to_many(vec![p1], msg, CheckCostOptions::default()).unwrap();

    let json = r#"
    {
      "status": "ERROR",
      "status_code": 200,
      "status_text": "Invalid api_id"
    }
    "#;

    let response = decode_check_cost_json_response(&req, json).unwrap();
    assert_eq!(response.status, Status::Error);
    assert_eq!(response.status_code, StatusCode::new(200));
    assert_eq!(response.status_text.as_deref(), Some("Invalid api_id"));
    assert!(response.sms.is_empty());
}

#[test]
fn decode_json_response_errors_on_unknown_phone_key() {
    let p1 = RawPhoneNumber::new("+79251234567").unwrap();
    let msg = MessageText::new("hello").unwrap();
    let req = CheckCost::to_many(vec![p1], msg, CheckCostOptions::default()).unwrap();

    let json = r#"
    {
      "status": "OK",
      "status_code": 100,
      "sms": {
        "79999999999": {
          "status": "OK",
          "status_code": 100,
          "cost": 0.00,
          "sms": 1
        }
      }
    }
    "#;

    let err = decode_check_cost_json_response(&req, json).unwrap_err();
    match err {
        TransportError::UnknownPhoneNumberKey { key } => assert_eq!(key, "79999999999"),
        other => panic!("unexpected error: {other:?}"),
    }
}

#[test]
fn decode_json_response_maps_ids_and_numeric_money() {
    let id = SmsId::new("000000-000001").unwrap();
    let request = CheckStatus::one(id.clone());

    let json = r#"
    {
      "status": "OK",
      "status_code": 100,
      "balance": 4122.56,
      "sms": {
        "000000-000001": {
          "status": "OK",
          "status_code": 103,
          "cost": 0.50,
          "status_text": "Delivered"
        }
      }
    }
    "#;

    let response = decode_check_status_json_response(&request, json).unwrap();
    assert_eq!(response.status, Status::Okay);
    assert_eq!(response.status_code, StatusCode::new(100));
    assert_eq!(response.balance.as_deref(), Some("4122.56"));

    let result = response.sms_for(&id).unwrap();
    assert_eq!(result.status, Status::Okay);
    assert_eq!(result.status_code, StatusCode::new(103));
    assert_eq!(result.cost.as_deref(), Some("0.50"));
}

#[test]
fn status_decode_json_response_supports_trimmed_keys_and_string_cost() {
    let id = SmsId::new("000000-000001").unwrap();
    let request = CheckStatus::one(id.clone());

    let json = r#"
    {
      "status": "OK",
      "status_code": 100,
      "sms": {
        " 000000-000001 ": {
          "status": "OK",
          "status_code": 104,
          "cost": "0.50"
        }
      }
    }
    "#;

    let response = decode_check_status_json_response(&request, json).unwrap();
    let result = response.sms_for(&id).unwrap();
    assert_eq!(result.status_code, StatusCode::new(104));
    assert_eq!(result.cost.as_deref(), Some("0.50"));
}

#[test]
fn decode_json_response_keeps_per_id_errors_inside_payload() {
    let ok_id = SmsId::new("000000-000001").unwrap();
    let err_id = SmsId::new("000000-000002").unwrap();
    let request = CheckStatus::new(vec![ok_id.clone(), err_id.clone()]).unwrap();

    let json = r#"
    {
      "status": "OK",
      "status_code": 100,
      "sms": {
        "000000-000001": {
          "status": "OK",
          "status_code": 103
        },
        "000000-000002": {
          "status": "ERROR",
          "status_code": -1,
          "status_text": "Message not found"
        }
      }
    }
    "#;

    let response = decode_check_status_json_response(&request, json).unwrap();
    assert_eq!(response.status, Status::Okay);
    assert_eq!(response.sms_for(&ok_id).unwrap().status, Status::Okay);
    assert_eq!(response.sms_for(&err_id).unwrap().status, Status::Error);
    assert_eq!(
        response.sms_for(&err_id).unwrap().status_code,
        StatusCode::new(-1)
    );
}

#[test]
fn status_decode_json_response_parses_top_level_error_payload() {
    let id = SmsId::new("000000-000001").unwrap();
    let request = CheckStatus::one(id);

    let json = r#"
    {
      "status": "ERROR",
      "status_code": 200,
      "status_text": "Invalid api_id"
    }
    "#;

    let response = decode_check_status_json_response(&request, json).unwrap();
    assert_eq!(response.status, Status::Error);
    assert_eq!(response.status_code, StatusCode::new(200));
    assert_eq!(response.status_text.as_deref(), Some("Invalid api_id"));
    assert!(response.sms.is_empty());
}

#[test]
fn decode_json_response_errors_on_unknown_sms_id_key() {
    let request = CheckStatus::one(SmsId::new("000000-000001").unwrap());
    let json = r#"
    {
      "status": "OK",
      "status_code": 100,
      "sms": {
        "000000-000999": {
          "status": "OK",
          "status_code": 103
        }
      }
    }
    "#;

    let err = decode_check_status_json_response(&request, json).unwrap_err();
    match err {
        TransportError::UnknownSmsIdKey { key } => assert_eq!(key, "000000-000999"),
        other => panic!("unexpected error: {other:?}"),
    }
}

#[test]
fn decode_status_only_maps_payload() {
    let json = r#"
    {
      "status": "OK",
      "status_code": 100
    }
    "#;

    let parsed = decode_status_only_json_response(json).unwrap();
    assert_eq!(parsed.status, Status::Okay);
    assert_eq!(parsed.status_code, StatusCode::new(100));
    assert_eq!(parsed.status_text, None);
}

#[test]
fn decode_balance_supports_numeric_and_string_money() {
    let numeric = r#"
    {
      "status": "OK",
      "status_code": 100,
      "balance": 10.50
    }
    "#;
    let parsed = decode_balance_json_response(numeric).unwrap();
    assert_eq!(parsed.balance.as_deref(), Some("10.50"));

    let string = r#"
    {
      "status": "OK",
      "status_code": 100,
      "balance": "10.50"
    }
    "#;
    let parsed = decode_balance_json_response(string).unwrap();
    assert_eq!(parsed.balance.as_deref(), Some("10.50"));
}

#[test]
fn decode_free_usage_supports_numeric_or_string_counts() {
    let json = r#"
    {
      "status": "OK",
      "status_code": 100,
      "total_free": "5",
      "used_today": 3
    }
    "#;

    let parsed = decode_free_usage_json_response(json).unwrap();
    assert_eq!(parsed.total_free, Some(5));
    assert_eq!(parsed.used_today, Some(3));
}

#[test]
fn decode_limit_usage_supports_numeric_or_string_counts() {
    let json = r#"
    {
      "status": "OK",
      "status_code": 100,
      "total_limit": 100,
      "used_today": "7"
    }
    "#;

    let parsed = decode_limit_usage_json_response(json).unwrap();
    assert_eq!(parsed.total_limit, Some(100));
    assert_eq!(parsed.used_today, Some(7));
}

#[test]
fn decode_senders_uses_empty_default_for_missing_field() {
    let json = r#"
    {
      "status": "OK",
      "status_code": 100
    }
    "#;

    let parsed = decode_senders_json_response(json).unwrap();
    assert_eq!(parsed.senders, Vec::<String>::new());
}

#[test]
fn decode_callbacks_json_response_maps_payload() {
    let json = r#"
    {
      "status": "OK",
      "status_code": 100,
      "callback": ["https://example.com/a", "http://example.com/b"]
    }
    "#;
    let parsed = decode_callbacks_json_response(json).unwrap();
    assert_eq!(parsed.status, Status::Okay);
    assert_eq!(parsed.status_code, StatusCode::new(100));
    assert_eq!(parsed.callback.len(), 2);
}

#[test]
fn decode_callbacks_json_response_errors_on_invalid_url() {
    let json = r#"
    {
      "status": "OK",
      "status_code": 100,
      "callback": ["bad"]
    }
    "#;
    let err = decode_callbacks_json_response(json).unwrap_err();
    assert!(matches!(err, TransportError::InvalidCallbackUrl { .. }));
}

#[test]
fn decode_json_response_maps_success_payload() {
    let json = r#"
    {
      "status": "OK",
      "status_code": 100,
      "check_id": "201737-542",
      "call_phone": "78005008275",
      "call_phone_pretty": "+7 (800) 500-8275",
      "call_phone_html": "<a href=\"callto:78005008275\">+7 (800) 500-8275</a>"
    }
    "#;

    let response = decode_start_call_auth_json_response(json).unwrap();
    assert_eq!(response.status, Status::Okay);
    assert_eq!(response.status_code, StatusCode::new(100));
    assert_eq!(
        response.check_id.as_ref().map(CallCheckId::as_str),
        Some("201737-542")
    );
    assert_eq!(
        response.call_phone.as_ref().map(RawPhoneNumber::raw),
        Some("78005008275")
    );
    assert_eq!(
        response.call_phone_pretty.as_deref(),
        Some("+7 (800) 500-8275")
    );
}

#[test]
fn callcheck_add_decode_json_response_parses_top_level_error_payload() {
    let json = r#"
    {
      "status": "ERROR",
      "status_code": 200,
      "status_text": "Invalid api_id"
    }
    "#;

    let response = decode_start_call_auth_json_response(json).unwrap();
    assert_eq!(response.status, Status::Error);
    assert_eq!(response.status_code, StatusCode::new(200));
    assert_eq!(response.status_text.as_deref(), Some("Invalid api_id"));
    assert!(response.check_id.is_none());
    assert!(response.call_phone.is_none());
}

#[test]
fn decode_json_response_maps_success_payload_with_string_code() {
    let json = "
    {
      \"status\": \"OK\",
      \"status_code\": 100,
      \"check_status\": \"401\",
      \"check_status_text\": \"confirmed\"
    }
    ";

    let response = decode_check_call_auth_status_json_response(json).unwrap();
    assert_eq!(response.status, Status::Okay);
    assert_eq!(response.status_code, StatusCode::new(100));
    assert_eq!(
        response
            .check_status
            .and_then(CallCheckStatusCode::known_kind),
        Some(KnownCallCheckStatusCode::Confirmed)
    );
}

#[test]
fn decode_json_response_maps_success_payload_with_numeric_code() {
    let json = "
    {
      \"status\": \"OK\",
      \"status_code\": 100,
      \"check_status\": 400,
      \"check_status_text\": \"not confirmed yet\"
    }
    ";

    let response = decode_check_call_auth_status_json_response(json).unwrap();
    assert_eq!(response.status, Status::Okay);
    assert_eq!(
        response
            .check_status
            .and_then(CallCheckStatusCode::known_kind),
        Some(KnownCallCheckStatusCode::NotConfirmedYet)
    );
}

#[test]
fn callcheck_status_decode_json_response_parses_top_level_error_payload() {
    let json = r#"
    {
      "status": "ERROR",
      "status_code": 200,
      "status_text": "Invalid api_id"
    }
    "#;

    let response = decode_check_call_auth_status_json_response(json).unwrap();
    assert_eq!(response.status, Status::Error);
    assert_eq!(response.status_code, StatusCode::new(200));
    assert_eq!(response.status_text.as_deref(), Some("Invalid api_id"));
    assert!(response.check_status.is_none());
}

#[test]
fn decode_get_stoplist_json_response_maps_payload() {
    let json = r#"
    {
      "status": "OK",
      "status_code": 100,
      "stoplist": {
        "79251234567": "fraud"
      }
    }
    "#;

    let parsed = decode_get_stoplist_json_response(json).unwrap();
    assert_eq!(parsed.status, Status::Okay);
    assert_eq!(parsed.status_code, StatusCode::new(100));
    assert_eq!(
        parsed
            .note_for(&RawPhoneNumber::new("79251234567").unwrap())
            .map(String::as_str),
        Some("fraud")
    );
}

#[test]
fn decode_get_stoplist_json_response_errors_on_invalid_phone_key() {
    let json = r#"
    {
      "status": "OK",
      "status_code": 100,
      "stoplist": {
        "   ": "fraud"
      }
    }
    "#;

    let err = decode_get_stoplist_json_response(json).unwrap_err();
    assert!(matches!(err, TransportError::InvalidStoplistPhoneKey { .. }));
}

#[test]
fn decode_rejects_invalid_json_and_bad_envelopes() {
    assert!(matches!(
        decode_status_only_json_response("not json"),
        Err(TransportError::MalformedPayload)
    ));
    assert!(matches!(
        decode_status_only_json_response("[1, 2]"),
        Err(TransportError::MalformedPayload)
    ));
    assert!(matches!(
        decode_status_only_json_response(r#"{"status": "MAYBE", "status_code": 100}"#),
        Err(TransportError::MalformedPayload)
    ));
    assert!(matches!(
        decode_status_only_json_response(r#"{"status": "OK"}"#),
        Err(TransportError::MalformedPayload)
    ));
    assert!(matches!(
        decode_balance_json_response(r#"{"status": "OK", "status_code": 100, "balance": true}"#),
        Err(TransportError::InvalidScalar)
    ));
}

#[test]
fn decode_rejects_string_status_code_and_null_sms() {
    // `status_code` must be a bare JSON integer.
    assert!(matches!(
        decode_status_only_json_response(r#"{"status": "OK", "status_code": "100"}"#),
        Err(TransportError::MalformedPayload)
    ));
    // A present `sms` field must be an object.
    let p1 = RawPhoneNumber::new("+79251234567").unwrap();
    let msg = MessageText::new("hello").unwrap();
    let req = SendSms::to_many(vec![p1], msg, SendOptions::default()).unwrap();
    let err = decode_send_sms_json_response(
        &req,
        r#"{"status": "OK", "status_code": 100, "sms": null}"#,
    )
    .unwrap_err();
    assert!(matches!(err, TransportError::MalformedPayload));
}

#[test]
fn decode_start_call_auth_rejects_blank_embedded_values() {
    let json = r#"{"status":"OK","status_code":100,"check_id":"   "}"#;
    let err = decode_start_call_auth_json_response(json).unwrap_err();
    match err {
        TransportError::InvalidCheckId { value } => assert_eq!(value, "   "),
        other => panic!("unexpected error: {other:?}"),
    }

    let json = r#"{"status":"OK","status_code":100,"call_phone":" "}"#;
    let err = decode_start_call_auth_json_response(json).unwrap_err();
    assert!(matches!(err, TransportError::InvalidCallPhone { .. }));
}

#[test]
fn decode_check_call_auth_status_treats_unparsable_string_code_as_absent() {
    let json = r#"{"status":"OK","status_code":100,"check_status":"soon"}"#;
    let response = decode_check_call_auth_status_json_response(json).unwrap();
    assert!(response.check_status.is_none());
}

#[test]
fn sms_lookup_misses_unlisted_recipients() {
    let p1 = RawPhoneNumber::new("+79251234567").unwrap();
    let other = RawPhoneNumber::new("+70000000000").unwrap();
    let msg = MessageText::new("hello").unwrap();
    let req = SendSms::to_many(vec![p1.clone()], msg, SendOptions::default()).unwrap();

    let json = r#"{"status":"OK","status_code":100,"sms":{"79251234567":{"status":"OK","status_code":100}}}"#;
    let resp = decode_send_sms_json_response(&req, json).unwrap();
    assert!(resp.sms_for(&p1).is_some());
    assert!(resp.sms_for(&other).is_none());
}
