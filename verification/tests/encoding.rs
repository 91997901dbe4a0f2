//! Tests for the form encoders.

use smsru::form::{
    encode_add_callback_form, encode_add_stoplist_form, encode_auth_check_form,
    encode_check_call_auth_status_form, encode_check_cost_form, encode_check_status_form,
    encode_get_balance_form, encode_get_callbacks_form, encode_get_free_usage_form,
    encode_get_limit_usage_form, encode_get_senders_form, encode_get_stoplist_form,
    encode_remove_callback_form, encode_remove_stoplist_form, encode_send_sms_form,
    encode_start_call_auth_form,
};
use smsru::{
    AddCallback, AddStoplistEntry, CallCheckId, CallbackUrl, CheckCallAuthStatus,
    CheckCallAuthStatusOptions, CheckCost, CheckCostOptions, CheckStatus, IpAddress, JsonMode,
    MessageText, RawPhoneNumber, RemoveCallback, RemoveStoplistEntry, SendOptions, SendSms,
    SenderId, SmsId, StartCallAuth, StartCallAuthOptions, StoplistText, TtlMinutes, UnixTimestamp,
};

fn pair(name: &str, value: &str) -> (String, String) {
    (name.to_owned(), value.to_owned())
}

#[test]
fn encode_to_many_form_params() {
    let p1 = RawPhoneNumber::new("+79251234567").unwrap();
    let p2 = RawPhoneNumber::new("+74993221627").unwrap();
    let msg = MessageText::new("hello").unwrap();

    let options = SendOptions {
        ip: Some(IpAddress::new("127.0.0.1").unwrap()),
        time: Some(UnixTimestamp::new(1_700_000_000)),
        ttl: Some(TtlMinutes::new(60).unwrap()),
        daytime: true,
        test: true,
        ..Default::default()
    };

    let req = SendSms::to_many(vec![p1, p2], msg, options).unwrap();
    let params = encode_send_sms_form(&req);

    assert_eq!(
        params,
        vec![
            pair("json", "1"),
            pair("to", "+79251234567,+74993221627"),
            pair("msg", "hello"),
            pair("ip", "127.0.0.1"),
            pair("time", "1700000000"),
            pair("ttl", "60"),
            pair("daytime", "1"),
            pair("test", "1"),
        ]
    );
}

#[test]
fn encode_per_recipient_expands_to_array_like_keys() {
    let p1 = RawPhoneNumber::new("+79251234567").unwrap();
    let p2 = RawPhoneNumber::new("+74993221627").unwrap();

    let messages = vec![
        (p1, MessageText::new("hi 1").unwrap()),
        (p2, MessageText::new("hi 2").unwrap()),
    ];

    let req = SendSms::per_recipient(messages, SendOptions::default()).unwrap();
    let params = encode_send_sms_form(&req);

    assert_eq!(
        params,
        vec![
            pair("json", "1"),
            pair("to[+74993221627]", "hi 2"),
            pair("to[+79251234567]", "hi 1"),
        ]
    );
}

#[test]
fn encode_can_omit_json_param_when_overridden() {
    let p1 = RawPhoneNumber::new("+79251234567").unwrap();
    let msg = MessageText::new("hello").unwrap();

    let options = SendOptions {
        json: JsonMode::Plain,
        ..Default::default()
    };
    let req = SendSms::to_many(vec![p1], msg, options).unwrap();
    let params = encode_send_sms_form(&req);

    assert!(!params.iter().any(|(k, _)| k == "json"));
}

#[test]
fn check_cost_encode_to_many_form_params() {
    let p1 = RawPhoneNumber::new("+79251234567").unwrap();
    let p2 = RawPhoneNumber::new("+74993221627").unwrap();
    let msg = MessageText::new("hello").unwrap();

    let options = CheckCostOptions {
        from: Some(SenderId::new("MySender").unwrap()),
        translit: true,
        ..Default::default()
    };

    let req = CheckCost::to_many(vec![p1, p2], msg, options).unwrap();
    let params = encode_check_cost_form(&req);

    assert_eq!(
        params,
        vec![
            pair("json", "1"),
            pair("to", "+79251234567,+74993221627"),
            pair("msg", "hello"),
            pair("from", "MySender"),
            pair("translit", "1"),
        ]
    );
}

#[test]
fn check_cost_encode_per_recipient_expands_to_array_like_keys() {
    let p1 = RawPhoneNumber::new("+79251234567").unwrap();
    let p2 = RawPhoneNumber::new("+74993221627").unwrap();

    let messages = vec![
        (p1, MessageText::new("hi 1").unwrap()),
        (p2, MessageText::new("hi 2").unwrap()),
    ];

    let req = CheckCost::per_recipient(messages, CheckCostOptions::default()).unwrap();
    let params = encode_check_cost_form(&req);

    assert_eq!(
        params,
        vec![
            pair("json", "1"),
            pair("to[+74993221627]", "hi 2"),
            pair("to[+79251234567]", "hi 1"),
        ]
    );
}

#[test]
fn check_cost_encode_can_omit_json_param_when_overridden() {
    let p1 = RawPhoneNumber::new("+79251234567").unwrap();
    let msg = MessageText::new("hello").unwrap();

    let options = CheckCostOptions {
        json: JsonMode::Plain,
        ..Default::default()
    };
    let req = CheckCost::to_many(vec![p1], msg, options).unwrap();
    let params = encode_check_cost_form(&req);

    assert!(!params.iter().any(|(k, _)| k == "json"));
}

#[test]
fn encode_check_status_form_params() {
    let request = CheckStatus::new(vec![
        SmsId::new("000000-000001").unwrap(),
        SmsId::new("000000-000002").unwrap(),
    ])
    .unwrap();

    let params = encode_check_status_form(&request);
    assert_eq!(
        params,
        vec![
            pair("json", "1"),
            pair("sms_id", "000000-000001,000000-000002"),
        ]
    );
}

#[test]
fn encode_start_call_auth_form_params() {
    let request = StartCallAuth::new(
        RawPhoneNumber::new("79251234567").unwrap(),
        StartCallAuthOptions::default(),
    );

    let params = encode_start_call_auth_form(&request);
    assert_eq!(params, vec![pair("json", "1"), pair("phone", "79251234567")]);
}

#[test]
fn callcheck_add_encode_can_omit_json_param_when_overridden() {
    let request = StartCallAuth::new(
        RawPhoneNumber::new("79251234567").unwrap(),
        StartCallAuthOptions {
            json: JsonMode::Plain,
        },
    );

    let params = encode_start_call_auth_form(&request);
    assert_eq!(params, vec![pair("phone", "79251234567")]);
}

#[test]
fn encode_check_call_auth_status_form_params() {
    let request = CheckCallAuthStatus::new(
        CallCheckId::new("201737-542").unwrap(),
        CheckCallAuthStatusOptions::default(),
    );

    let params = encode_check_call_auth_status_form(&request);
    assert_eq!(
        params,
        vec![pair("json", "1"), pair("check_id", "201737-542")]
    );
}

#[test]
fn callcheck_status_encode_can_omit_json_param_when_overridden() {
    let request = CheckCallAuthStatus::new(
        CallCheckId::new("201737-542").unwrap(),
        CheckCallAuthStatusOptions {
            json: JsonMode::Plain,
        },
    );

    let params = encode_check_call_auth_status_form(&request);
    assert_eq!(params, vec![pair("check_id", "201737-542")]);
}

fn assert_json_form(params: &[(String, String)]) {
    assert_eq!(params, &[pair("json", "1")]);
}

#[test]
fn json_only_encoders_set_json_param() {
    assert_json_form(&encode_auth_check_form());
    assert_json_form(&encode_get_balance_form());
    assert_json_form(&encode_get_free_usage_form());
    assert_json_form(&encode_get_limit_usage_form());
    assert_json_form(&encode_get_senders_form());
}

#[test]
fn encode_add_callback_form_params() {
    let request = AddCallback::new(CallbackUrl::new("https://example.com/callback").unwrap());
    assert_eq!(
        encode_add_callback_form(&request),
        vec![pair("json", "1"), pair("url", "https://example.com/callback")]
    );
}

#[test]
fn encode_remove_callback_form_params() {
    let request = RemoveCallback::new(CallbackUrl::new("https://example.com/callback").unwrap());
    assert_eq!(
        encode_remove_callback_form(&request),
        vec![pair("json", "1"), pair("url", "https://example.com/callback")]
    );
}

#[test]
fn encode_get_callbacks_form_params() {
    assert_eq!(encode_get_callbacks_form(), vec![pair("json", "1")]);
}

#[test]
fn encode_add_stoplist_form_params() {
    let request = AddStoplistEntry::new(
        RawPhoneNumber::new("79251234567").unwrap(),
        StoplistText::new("fraud").unwrap(),
    );
    assert_eq!(
        encode_add_stoplist_form(&request),
        vec![
            pair("json", "1"),
            pair("stoplist_phone", "79251234567"),
            pair("stoplist_text", "fraud"),
        ]
    );
}

#[test]
fn encode_remove_stoplist_form_params() {
    let request = RemoveStoplistEntry::new(RawPhoneNumber::new("79251234567").unwrap());
    assert_eq!(
        encode_remove_stoplist_form(&request),
        vec![pair("json", "1"), pair("stoplist_phone", "79251234567")]
    );
}

#[test]
fn encode_get_stoplist_form_params() {
    assert_eq!(encode_get_stoplist_form(), vec![pair("json", "1")]);
}
