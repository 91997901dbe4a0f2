//! Tests for request construction and validation.

use smsru::{
    Auth, CallCheckId, CheckCallAuthStatus, CheckCallAuthStatusOptions, CheckCost,
    CheckCostOptions, CheckStatus, JsonMode, MessageText, RawPhoneNumber, SendOptions, SendSms,
    SmsId, StartCallAuth, StartCallAuthOptions, ValidationError, CHECK_COST_MAX_RECIPIENTS,
    CHECK_STATUS_MAX_SMS_IDS, SEND_SMS_MAX_RECIPIENTS,
};

fn make_recipients(count: usize) -> Vec<RawPhoneNumber> {
    (0..count)
        .map(|idx| RawPhoneNumber::new(&format!("+792512300{idx:02}")).unwrap())
        .collect()
}

#[test]
fn to_many_rejects_empty_recipients() {
    let msg = MessageText::new("hi").unwrap();
    let err = SendSms::to_many(Vec::new(), msg, SendOptions::default()).unwrap_err();
    assert_eq!(
        err,
        ValidationError::Empty {
            field: RawPhoneNumber::FIELD
        }
    );
}

#[test]
fn to_many_rejects_too_many_recipients() {
    let msg = MessageText::new("hi").unwrap();
    let recipients = make_recipients(SEND_SMS_MAX_RECIPIENTS + 1);
    let err = SendSms::to_many(recipients, msg, SendOptions::default()).unwrap_err();
    assert_eq!(
        err,
        ValidationError::TooManyRecipients {
            max: SEND_SMS_MAX_RECIPIENTS,
            actual: SEND_SMS_MAX_RECIPIENTS + 1
        }
    );
}

#[test]
fn per_recipient_rejects_empty_messages() {
    let err = SendSms::per_recipient(Vec::new(), SendOptions::default()).unwrap_err();
    assert_eq!(
        err,
        ValidationError::Empty {
            field: RawPhoneNumber::FIELD
        }
    );
}

#[test]
fn per_recipient_rejects_too_many_messages() {
    let mut messages = Vec::new();
    for idx in 0..(SEND_SMS_MAX_RECIPIENTS + 1) {
        messages.push((
            RawPhoneNumber::new(&format!("+792512310{idx:02}")).unwrap(),
            MessageText::new("hi").unwrap(),
        ));
    }
    let err = SendSms::per_recipient(messages, SendOptions::default()).unwrap_err();
    assert_eq!(
        err,
        ValidationError::TooManyRecipients {
            max: SEND_SMS_MAX_RECIPIENTS,
            actual: SEND_SMS_MAX_RECIPIENTS + 1
        }
    );
}

#[test]
fn send_sms_recipient_limit_is_enforced() {
    let pn = RawPhoneNumber::new("79251234567").unwrap();
    let msg = MessageText::new("hi").unwrap();
    let recipients = vec![pn; SEND_SMS_MAX_RECIPIENTS + 1];
    let err = SendSms::to_many(recipients, msg, SendOptions::default()).unwrap_err();
    assert!(matches!(err, ValidationError::TooManyRecipients { .. }));
}

#[test]
fn per_recipient_requires_non_empty() {
    let err = SendSms::per_recipient(Vec::new(), SendOptions::default()).unwrap_err();
    assert!(matches!(
        err,
        ValidationError::Empty {
            field: RawPhoneNumber::FIELD
        }
    ));
}

#[test]
fn to_many_exposes_fields() {
    let recipients = make_recipients(2);
    let msg = MessageText::new("hello").unwrap();
    let options = SendOptions::default();
    let req = SendSms::to_many(recipients.clone(), msg.clone(), options.clone()).unwrap();

    match req {
        SendSms::ToMany(to_many) => {
            assert_eq!(to_many.recipients(), &recipients);
            assert_eq!(to_many.msg(), &msg);
            assert_eq!(to_many.options().json, options.json);
        }
        SendSms::PerRecipient(_) => panic!("expected to_many request"),
    }
}

#[test]
fn per_recipient_exposes_fields() {
    let p1 = RawPhoneNumber::new("+79251234567").unwrap();
    let msg = MessageText::new("hello").unwrap();
    let messages = vec![(p1.clone(), msg.clone())];
    let options = SendOptions::default();

    let req = SendSms::per_recipient(messages.clone(), options.clone()).unwrap();
    match req {
        SendSms::PerRecipient(per_recipient) => {
            assert_eq!(per_recipient.messages(), &messages);
            assert_eq!(per_recipient.options().json, options.json);
        }
        SendSms::ToMany(_) => panic!("expected per_recipient request"),
    }
}

#[test]
fn check_cost_recipient_limit_is_enforced() {
    let pn = RawPhoneNumber::new("79251234567").unwrap();
    let msg = MessageText::new("hi").unwrap();
    let recipients = vec![pn; CHECK_COST_MAX_RECIPIENTS + 1];
    let err = CheckCost::to_many(recipients, msg, CheckCostOptions::default()).unwrap_err();
    assert!(matches!(err, ValidationError::TooManyRecipients { .. }));
}

#[test]
fn check_status_id_limit_is_enforced() {
    let sms_ids = (0..(CHECK_STATUS_MAX_SMS_IDS + 1))
        .map(|idx| SmsId::new(&format!("000000-{:06}", idx)).unwrap())
        .collect::<Vec<_>>();
    let err = CheckStatus::new(sms_ids).unwrap_err();
    assert!(matches!(err, ValidationError::TooManySmsIds { .. }));
}

#[test]
fn check_cost_to_many_rejects_empty_recipients() {
    let msg = MessageText::new("hi").unwrap();
    let err = CheckCost::to_many(Vec::new(), msg, CheckCostOptions::default()).unwrap_err();
    assert_eq!(
        err,
        ValidationError::Empty {
            field: RawPhoneNumber::FIELD
        }
    );
}

#[test]
fn check_cost_to_many_rejects_too_many_recipients() {
    let msg = MessageText::new("hi").unwrap();
    let recipients = make_recipients(CHECK_COST_MAX_RECIPIENTS + 1);
    let err = CheckCost::to_many(recipients, msg, CheckCostOptions::default()).unwrap_err();
    assert_eq!(
        err,
        ValidationError::TooManyRecipients {
            max: CHECK_COST_MAX_RECIPIENTS,
            actual: CHECK_COST_MAX_RECIPIENTS + 1
        }
    );
}

#[test]
fn check_cost_per_recipient_rejects_empty_messages() {
    let err = CheckCost::per_recipient(Vec::new(), CheckCostOptions::default()).unwrap_err();
    assert_eq!(
        err,
        ValidationError::Empty {
            field: RawPhoneNumber::FIELD
        }
    );
}

#[test]
fn check_cost_per_recipient_rejects_too_many_messages() {
    let mut messages = Vec::new();
    for idx in 0..(CHECK_COST_MAX_RECIPIENTS + 1) {
        messages.push((
            RawPhoneNumber::new(&format!("+792512330{idx:02}")).unwrap(),
            MessageText::new("hi").unwrap(),
        ));
    }
    let err = CheckCost::per_recipient(messages, CheckCostOptions::default()).unwrap_err();
    assert_eq!(
        err,
        ValidationError::TooManyRecipients {
            max: CHECK_COST_MAX_RECIPIENTS,
            actual: CHECK_COST_MAX_RECIPIENTS + 1
        }
    );
}

#[test]
fn check_cost_to_many_exposes_fields() {
    let recipients = make_recipients(2);
    let msg = MessageText::new("hello").unwrap();
    let options = CheckCostOptions::default();
    let req = CheckCost::to_many(recipients.clone(), msg.clone(), options.clone()).unwrap();

    match req {
        CheckCost::ToMany(to_many) => {
            assert_eq!(to_many.recipients(), &recipients);
            assert_eq!(to_many.msg(), &msg);
            assert_eq!(to_many.options().json, options.json);
        }
        CheckCost::PerRecipient(_) => panic!("expected to_many request"),
    }
}

#[test]
fn check_cost_per_recipient_exposes_fields() {
    let p1 = RawPhoneNumber::new("+79251234567").unwrap();
    let msg = MessageText::new("hello").unwrap();
    let messages = vec![(p1.clone(), msg.clone())];
    let options = CheckCostOptions::default();

    let req = CheckCost::per_recipient(messages.clone(), options.clone()).unwrap();
    match req {
        CheckCost::PerRecipient(per_recipient) => {
            assert_eq!(per_recipient.messages(), &messages);
            assert_eq!(per_recipient.options().json, options.json);
        }
        CheckCost::ToMany(_) => panic!("expected per_recipient request"),
    }
}

#[test]
fn check_status_rejects_empty_sms_ids() {
    let err = CheckStatus::new(Vec::new()).unwrap_err();
    assert_eq!(
        err,
        ValidationError::Empty {
            field: SmsId::FIELD
        }
    );
}

#[test]
fn check_status_rejects_too_many_sms_ids() {
    let sms_ids = (0..(CHECK_STATUS_MAX_SMS_IDS + 1))
        .map(|idx| SmsId::new(&format!("000000-{:06}", idx)).unwrap())
        .collect::<Vec<_>>();
    let err = CheckStatus::new(sms_ids).unwrap_err();
    assert_eq!(
        err,
        ValidationError::TooManySmsIds {
            max: CHECK_STATUS_MAX_SMS_IDS,
            actual: CHECK_STATUS_MAX_SMS_IDS + 1
        }
    );
}

#[test]
fn check_status_one_creates_single_id_request() {
    let sms_id = SmsId::new("000000-000001").unwrap();
    let request = CheckStatus::one(sms_id.clone());
    assert_eq!(request.sms_ids(), &vec![sms_id]);
}

#[test]
fn check_status_new_exposes_sms_ids() {
    let ids = vec![
        SmsId::new("000000-000001").unwrap(),
        SmsId::new("000000-000002").unwrap(),
    ];
    let request = CheckStatus::new(ids.clone()).unwrap();
    assert_eq!(request.sms_ids(), &ids);
}

#[test]
fn start_call_auth_exposes_fields() {
    let phone = RawPhoneNumber::new("79251234567").unwrap();
    let request = StartCallAuth::new(phone.clone(), StartCallAuthOptions::default());
    assert_eq!(request.phone(), &phone);
    assert_eq!(request.options().json, JsonMode::Json);
}

#[test]
fn check_call_auth_status_exposes_fields() {
    let check_id = CallCheckId::new("201737-542").unwrap();
    let request = CheckCallAuthStatus::new(check_id.clone(), CheckCallAuthStatusOptions::default());
    assert_eq!(request.check_id(), &check_id);
    assert_eq!(request.options().json, JsonMode::Json);
}

#[test]
fn auth_constructors_validate_inputs() {
    assert!(Auth::api_id("   ").is_err());
    assert!(Auth::login_password("", "pass").is_err());
    assert!(Auth::login_password("user", "").is_err());
}

#[test]
fn per_recipient_sorts_and_keeps_last_duplicate() {
    let p1 = RawPhoneNumber::new("+79251234567").unwrap();
    let p2 = RawPhoneNumber::new("+74993221627").unwrap();
    let messages = vec![
        (p1.clone(), MessageText::new("first").unwrap()),
        (p2.clone(), MessageText::new("second").unwrap()),
        (p1.clone(), MessageText::new("replaced").unwrap()),
    ];
    let req = SendSms::per_recipient(messages, SendOptions::default()).unwrap();
    match req {
        SendSms::PerRecipient(pr) => {
            let entries = pr.messages();
            assert_eq!(entries.len(), 2);
            assert_eq!(entries[0].0.raw(), "+74993221627");
            assert_eq!(entries[0].1.as_str(), "second");
            assert_eq!(entries[1].0.raw(), "+79251234567");
            assert_eq!(entries[1].1.as_str(), "replaced");
        }
        SendSms::ToMany(_) => panic!("expected per_recipient request"),
    }
}
