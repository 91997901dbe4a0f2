//! Scenario tests for the wire-mapping layer's stated properties.

use smsru::account::decode_balance_json_response;
use smsru::client::{
    evaluate_balance_response, evaluate_callbacks_response,
    evaluate_check_call_auth_status_response, evaluate_check_status_response,
    evaluate_free_usage_response, evaluate_limit_usage_response, evaluate_send_sms_response,
    evaluate_senders_response, evaluate_start_call_auth_response, evaluate_status_only_response,
    evaluate_stoplist_response, prepare_check_call_auth_status_params, prepare_check_cost_params,
    prepare_send_sms_params, prepare_start_call_auth_params,
};
use smsru::form::encode_send_sms_form;
use smsru::json::JsonValue;
use smsru::send_sms::decode_send_sms_json_response;
use smsru::{
    Auth, CallCheckId, CallbackUrl, CheckCallAuthStatus, CheckCallAuthStatusOptions, CheckCost,
    CheckCostOptions, CheckStatus, JsonMode, MessageText, RawPhoneNumber, SendOptions, SendSms,
    SmsId, SmsRuError, StartCallAuth, StartCallAuthOptions, Status, StatusCode, StoplistText,
    TransportError, TransportMoney, ValidationError,
};

#[test]
fn money_round_trip_preserves_decimal_text() {
    for (body, expected) in [
        (r#"{"status":"OK","status_code":100,"balance":"10.00"}"#, "10.00"),
        (r#"{"status":"OK","status_code":100,"balance":10.00}"#, "10.00"),
        (r#"{"status":"OK","status_code":100,"balance":"0.5"}"#, "0.5"),
        (r#"{"status":"OK","status_code":100,"balance":5}"#, "5"),
    ] {
        let parsed = decode_balance_json_response(body).unwrap();
        assert_eq!(parsed.balance.as_deref(), Some(expected));
    }
}

#[test]
fn transport_money_keeps_the_exact_token() {
    let m = TransportMoney::from_value(&JsonValue::Number("10.00".to_owned())).unwrap();
    assert_eq!(m.into_string(), "10.00");
    let m = TransportMoney::from_value(&JsonValue::String("0.50".to_owned())).unwrap();
    assert_eq!(m.into_string(), "0.50");
    assert!(TransportMoney::from_value(&JsonValue::Null).is_none());
    assert!(TransportMoney::from_value(&JsonValue::Bool(true)).is_none());
}

#[test]
fn key_reconciliation_tolerates_normalization_drift() {
    let phone = RawPhoneNumber::new("+79251234567").unwrap();
    let msg = MessageText::new("hello").unwrap();
    let req = SendSms::to_many(vec![phone.clone()], msg, SendOptions::default()).unwrap();

    for key in ["+79251234567", "79251234567", " +79251234567 "] {
        let json = format!(
            "{{\"status\":\"OK\",\"status_code\":100,\"sms\":{{\"{key}\":{{\"status\":\"OK\",\"status_code\":100}}}}}}"
        );
        let resp = decode_send_sms_json_response(&req, &json).unwrap();
        assert!(resp.sms_for(&phone).is_some(), "key {key:?} did not resolve");
    }

    let json = r#"{"status":"OK","status_code":100,"sms":{"70000000000":{"status":"OK","status_code":100}}}"#;
    let err = decode_send_sms_json_response(&req, json).unwrap_err();
    match err {
        TransportError::UnknownPhoneNumberKey { key } => assert_eq!(key, "70000000000"),
        other => panic!("unexpected error: {other:?}"),
    }
}

#[test]
fn per_recipient_form_encoding_is_deterministic() {
    let build = || {
        let messages = vec![
            (
                RawPhoneNumber::new("+79251234567").unwrap(),
                MessageText::new("hi 1").unwrap(),
            ),
            (
                RawPhoneNumber::new("+74993221627").unwrap(),
                MessageText::new("hi 2").unwrap(),
            ),
        ];
        SendSms::per_recipient(messages, SendOptions::default()).unwrap()
    };

    let first = encode_send_sms_form(&build());
    let second = encode_send_sms_form(&build());
    assert_eq!(first, second);
    assert_eq!(
        first,
        vec![
            ("json".to_owned(), "1".to_owned()),
            ("to[+74993221627]".to_owned(), "hi 2".to_owned()),
            ("to[+79251234567]".to_owned(), "hi 1".to_owned()),
        ]
    );
}

#[test]
fn broadcast_encoding_emits_to_then_msg() {
    let p1 = RawPhoneNumber::new("+79251234567").unwrap();
    let p2 = RawPhoneNumber::new("+74993221627").unwrap();
    let msg = MessageText::new("hello").unwrap();

    let req = SendSms::to_many(vec![p1.clone(), p2.clone()], msg, SendOptions::default()).unwrap();
    let params = encode_send_sms_form(&req);
    assert_eq!(
        params,
        vec![
            ("json".to_owned(), "1".to_owned()),
            ("to".to_owned(), "+79251234567,+74993221627".to_owned()),
            ("msg".to_owned(), "hello".to_owned()),
        ]
    );

    let msg = MessageText::new("hello").unwrap();
    let plain = SendSms::to_many(
        vec![p1, p2],
        msg,
        SendOptions {
            json: JsonMode::Plain,
            ..Default::default()
        },
    )
    .unwrap();
    let params = encode_send_sms_form(&plain);
    assert_eq!(
        params,
        vec![
            ("to".to_owned(), "+79251234567,+74993221627".to_owned()),
            ("msg".to_owned(), "hello".to_owned()),
        ]
    );
}

#[test]
fn partial_failure_is_preserved_not_propagated() {
    let ok_phone = RawPhoneNumber::new("+79251234567").unwrap();
    let err_phone = RawPhoneNumber::new("+74993221627").unwrap();
    let msg = MessageText::new("hello").unwrap();
    let req = SendSms::to_many(
        vec![ok_phone.clone(), err_phone.clone()],
        msg,
        SendOptions::default(),
    )
    .unwrap();

    let json = r#"
    {
      "status": "OK",
      "status_code": 100,
      "sms": {
        "79251234567": { "status": "OK", "status_code": 100 },
        "74993221627": { "status": "ERROR", "status_code": 207, "status_text": "No route" }
      }
    }
    "#;

    let resp = decode_send_sms_json_response(&req, json).unwrap();
    assert_eq!(resp.status, Status::Okay);
    let failed = resp.sms_for(&err_phone).unwrap();
    assert_eq!(failed.status, Status::Error);
    assert_eq!(failed.status_code, StatusCode::new(207));
    assert_eq!(failed.status_text.as_deref(), Some("No route"));
}

#[test]
fn unknown_status_code_survives_decode() {
    let phone = RawPhoneNumber::new("+79251234567").unwrap();
    let msg = MessageText::new("hello").unwrap();
    let req = SendSms::to_many(vec![phone], msg, SendOptions::default()).unwrap();

    let json = r#"{"status":"OK","status_code":999999}"#;
    let resp = decode_send_sms_json_response(&req, json).unwrap();
    assert_eq!(resp.status_code.as_i32(), 999_999);
    assert!(resp.status_code.known_kind().is_none());
    assert!(!resp.status_code.is_retryable());
    assert!(!resp.status_code.is_auth_error());
}

#[test]
fn end_to_end_send_example() {
    let phone = RawPhoneNumber::new("+79251234567").unwrap();
    let msg = MessageText::new("hello").unwrap();
    let req = SendSms::to_many(vec![phone.clone()], msg, SendOptions::default()).unwrap();

    let json = r#"{"status":"OK","status_code":100,"balance":"10.00","sms":{"79251234567":{"status":"OK","status_code":100,"sms_id":"abc123"}}}"#;

    let resp = decode_send_sms_json_response(&req, json).unwrap();
    assert_eq!(resp.balance.as_deref(), Some("10.00"));
    let result = resp.sms_for(&phone).unwrap();
    assert_eq!(result.sms_id.as_deref(), Some("abc123"));
}

#[test]
fn evaluate_maps_http_and_api_failures() {
    let phone = RawPhoneNumber::new("+79251234567").unwrap();
    let msg = MessageText::new("hello").unwrap();
    let req = SendSms::to_many(vec![phone], msg, SendOptions::default()).unwrap();

    let err = evaluate_send_sms_response(&req, 500, "oops").unwrap_err();
    match err {
        SmsRuError::HttpStatus { status, body } => {
            assert_eq!(status, 500);
            assert_eq!(body.as_deref(), Some("oops"));
        }
        other => panic!("unexpected error: {other:?}"),
    }

    let err = evaluate_send_sms_response(&req, 404, "   ").unwrap_err();
    match err {
        SmsRuError::HttpStatus { status, body } => {
            assert_eq!(status, 404);
            assert_eq!(body, None);
        }
        other => panic!("unexpected error: {other:?}"),
    }

    let api_error = r#"{"status":"ERROR","status_code":200,"status_text":"Invalid api_id"}"#;
    let err = evaluate_send_sms_response(&req, 200, api_error).unwrap_err();
    match err {
        SmsRuError::Api {
            status_code,
            status_text,
        } => {
            assert_eq!(status_code, StatusCode::new(200));
            assert_eq!(status_text.as_deref(), Some("Invalid api_id"));
        }
        other => panic!("unexpected error: {other:?}"),
    }

    let err = evaluate_send_sms_response(&req, 200, "not json").unwrap_err();
    assert!(matches!(
        err,
        SmsRuError::Parse(TransportError::MalformedPayload)
    ));

    let err = evaluate_balance_response(200, "not json").unwrap_err();
    assert!(matches!(
        err,
        SmsRuError::Parse(TransportError::MalformedPayload)
    ));
}

#[test]
fn prepare_params_rejects_plain_mode_and_prepends_auth() {
    let auth = Auth::api_id("test_key").unwrap();
    let phone = RawPhoneNumber::new("+79251234567").unwrap();
    let msg = MessageText::new("hello").unwrap();

    let plain = SendSms::to_many(
        vec![phone.clone()],
        msg.clone(),
        SendOptions {
            json: JsonMode::Plain,
            ..Default::default()
        },
    )
    .unwrap();
    assert!(matches!(
        prepare_send_sms_params(&auth, &plain),
        Err(SmsRuError::UnsupportedResponseFormat(_))
    ));

    let req = SendSms::to_many(vec![phone.clone()], msg.clone(), SendOptions::default()).unwrap();
    let params = prepare_send_sms_params(&auth, &req).unwrap();
    assert_eq!(params[0], ("api_id".to_owned(), "test_key".to_owned()));
    assert_eq!(params[1], ("json".to_owned(), "1".to_owned()));

    let cost_plain = CheckCost::to_many(
        vec![phone.clone()],
        MessageText::new("hello").unwrap(),
        CheckCostOptions {
            json: JsonMode::Plain,
            ..Default::default()
        },
    )
    .unwrap();
    assert!(matches!(
        prepare_check_cost_params(&auth, &cost_plain),
        Err(SmsRuError::UnsupportedResponseFormat(_))
    ));

    let auth = Auth::login_password("user", "pass").unwrap();
    let cost = CheckCost::to_many(
        vec![phone],
        MessageText::new("hello").unwrap(),
        CheckCostOptions::default(),
    )
    .unwrap();
    let params = prepare_check_cost_params(&auth, &cost).unwrap();
    assert_eq!(params[0], ("login".to_owned(), "user".to_owned()));
    assert_eq!(params[1], ("password".to_owned(), "pass".to_owned()));
}

#[test]
fn numeric_parsing_matches_the_standard_library() {
    for s in ["0", "7", "+7", "4294967295", "4294967296", "99999999999999999999", "", " 7", "1a", "-1"] {
        assert_eq!(smsru::text::parse_u32(s), s.parse::<u32>().ok(), "token {s:?}");
    }
    for s in ["0", "-1", "+5", "2147483647", "2147483648", "-2147483648", "-2147483649", "", "x"] {
        assert_eq!(smsru::text::parse_i32(s), s.parse::<i32>().ok(), "token {s:?}");
    }
}

#[test]
fn trimming_matches_the_standard_library() {
    for s in ["", "  ", " a ", "\t x\u{00A0}", "a", " \u{2028}b\u{3000} "] {
        assert_eq!(smsru::text::trim_str(s), s.trim(), "input {s:?}");
    }
}

#[test]
fn remaining_validation_messages_are_human_readable() {
    let err = ValidationError::TooManySmsIds { max: 2, actual: 3 };
    assert_eq!(err.message(), "too many sms ids: 3 (max 2)");
    let err = ValidationError::InvalidCallbackUrl {
        input: "bad".to_owned(),
    };
    assert_eq!(err.message(), "invalid callback url: bad");
}

#[test]
fn callback_url_requires_an_http_scheme() {
    assert!(CallbackUrl::new("https://example.com/cb").is_ok());
    assert!(CallbackUrl::new("http://example.com/cb").is_ok());
    assert!(matches!(
        CallbackUrl::new("   "),
        Err(ValidationError::Empty { .. })
    ));
    assert!(matches!(
        CallbackUrl::new("ftp://example.com"),
        Err(ValidationError::InvalidCallbackUrl { .. })
    ));
    assert!(matches!(
        StoplistText::new("  "),
        Err(ValidationError::Empty { .. })
    ));
}

#[test]
fn evaluate_covers_every_response_family() {
    let ok = r#"{"status":"OK","status_code":100}"#;
    assert!(evaluate_status_only_response(200, ok).is_ok());
    assert!(evaluate_free_usage_response(200, ok).is_ok());
    assert!(evaluate_limit_usage_response(200, ok).is_ok());
    assert!(evaluate_senders_response(200, ok).is_ok());
    assert!(evaluate_stoplist_response(200, ok).is_ok());
    assert!(evaluate_callbacks_response(200, ok).is_ok());
    assert!(evaluate_start_call_auth_response(200, ok).is_ok());
    assert!(evaluate_check_call_auth_status_response(200, ok).is_ok());

    let request = CheckStatus::one(SmsId::new("000000-000001").unwrap());
    assert!(evaluate_check_status_response(&request, 200, ok).is_ok());

    let api_error = r#"{"status":"ERROR","status_code":302}"#;
    let err = evaluate_status_only_response(200, api_error).unwrap_err();
    match err {
        SmsRuError::Api { status_code, .. } => {
            assert_eq!(status_code, StatusCode::new(302));
            assert!(status_code.is_auth_error());
        }
        other => panic!("unexpected error: {other:?}"),
    }
}

#[test]
fn call_auth_prepare_rejects_plain_mode() {
    let auth = Auth::api_id("test_key").unwrap();
    let phone = RawPhoneNumber::new("79251234567").unwrap();

    let plain = StartCallAuth::new(
        phone.clone(),
        StartCallAuthOptions {
            json: JsonMode::Plain,
        },
    );
    assert!(matches!(
        prepare_start_call_auth_params(&auth, &plain),
        Err(SmsRuError::UnsupportedResponseFormat(_))
    ));

    let req = StartCallAuth::new(phone, StartCallAuthOptions::default());
    let params = prepare_start_call_auth_params(&auth, &req).unwrap();
    assert_eq!(params[0], ("api_id".to_owned(), "test_key".to_owned()));

    let check_id = CallCheckId::new("201737-542").unwrap();
    let plain = CheckCallAuthStatus::new(
        check_id.clone(),
        CheckCallAuthStatusOptions {
            json: JsonMode::Plain,
        },
    );
    assert!(matches!(
        prepare_check_call_auth_status_params(&auth, &plain),
        Err(SmsRuError::UnsupportedResponseFormat(_))
    ));

    let req = CheckCallAuthStatus::new(check_id, CheckCallAuthStatusOptions::default());
    let params = prepare_check_call_auth_status_params(&auth, &req).unwrap();
    assert_eq!(params[2], ("check_id".to_owned(), "201737-542".to_owned()));
}
