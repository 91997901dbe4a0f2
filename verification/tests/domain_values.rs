//! Tests for the domain value types.

use smsru::{
    ApiId, CallCheckId, CallCheckStatusCode, KnownCallCheckStatusCode, KnownStatusCode, Login,
    MessageText, PartnerId, Password, PhoneNumber, RawPhoneNumber, SenderId, SmsId, StatusCode,
    TtlMinutes, ValidationError,
};

#[test]
fn api_id_rejects_empty() {
    assert!(matches!(
        ApiId::new("   "),
        Err(ValidationError::Empty {
            field: ApiId::FIELD
        })
    ));
}

#[test]
fn password_rejects_empty() {
    assert!(matches!(
        Password::new(""),
        Err(ValidationError::Empty {
            field: Password::FIELD
        })
    ));
}

#[test]
fn ttl_minutes_range_is_enforced() {
    assert!(TtlMinutes::new(0).is_err());
    assert!(TtlMinutes::new(1).is_ok());
    assert!(TtlMinutes::new(1440).is_ok());
    assert!(TtlMinutes::new(1441).is_err());
}

#[test]
fn status_code_known_mapping() {
    let code = StatusCode::new(100);
    assert_eq!(code.known_kind(), Some(KnownStatusCode::RequestOkOrQueued));

    let unknown = StatusCode::new(999_999);
    assert_eq!(unknown.known_kind(), None);
}

#[test]
fn status_code_helpers_cover_known_kinds() {
    let retryable = StatusCode::new(220);
    assert!(retryable.is_retryable());
    assert!(!retryable.is_auth_error());

    let auth_error = StatusCode::new(301);
    assert!(auth_error.is_auth_error());
    assert!(!auth_error.is_retryable());
}

#[test]
fn string_newtypes_trim_or_validate() {
    let api_id = ApiId::new("  key ").unwrap();
    assert_eq!(api_id.as_str(), "key");
    assert!(ApiId::new("  ").is_err());

    let login = Login::new(" user ").unwrap();
    assert_eq!(login.as_str(), "user");
    assert!(Login::new("").is_err());

    let password = Password::new(" secret ").unwrap();
    assert_eq!(password.as_str(), " secret ");
    assert!(Password::new("").is_err());

    let sender = SenderId::new(" sender ").unwrap();
    assert_eq!(sender.as_str(), "sender");

    let partner = PartnerId::new(" partner ").unwrap();
    assert_eq!(partner.as_str(), "partner");

    let msg = MessageText::new(" hi ").unwrap();
    assert_eq!(msg.as_str(), " hi ");
    assert!(MessageText::new("  ").is_err());

    let sms_id = SmsId::new(" 000000-000001 ").unwrap();
    assert_eq!(sms_id.as_str(), "000000-000001");
    assert!(SmsId::new("  ").is_err());

    let check_id = CallCheckId::new(" 201737-542 ").unwrap();
    assert_eq!(check_id.as_str(), "201737-542");
    assert!(CallCheckId::new("  ").is_err());
}

#[test]
fn raw_phone_number_trims_and_exposes_raw() {
    let raw = RawPhoneNumber::new(" +79251234567 ").unwrap();
    assert_eq!(raw.raw(), "+79251234567");
    assert!(RawPhoneNumber::new("").is_err());
}

#[test]
fn ttl_minutes_enforces_range() {
    assert!(TtlMinutes::new(TtlMinutes::MIN).is_ok());
    assert!(TtlMinutes::new(TtlMinutes::MAX).is_ok());
    assert!(TtlMinutes::new(0).is_err());
    assert!(TtlMinutes::new(TtlMinutes::MAX + 1).is_err());
}

#[test]
fn status_code_knows_retryable_and_auth_errors() {
    let retryable = StatusCode::new(220);
    assert!(retryable.is_retryable());
    assert!(!retryable.is_auth_error());

    let auth = StatusCode::new(301);
    assert!(auth.is_auth_error());
    assert!(!auth.is_retryable());

    let unknown = StatusCode::new(9999);
    assert!(unknown.known().is_none());
    assert!(!unknown.is_retryable());
    assert!(!unknown.is_auth_error());
}

#[test]
fn call_check_status_code_known_mapping() {
    let pending = CallCheckStatusCode::new(400);
    assert_eq!(
        pending.known_kind(),
        Some(KnownCallCheckStatusCode::NotConfirmedYet)
    );

    let confirmed = CallCheckStatusCode::new(401);
    assert_eq!(
        confirmed.known_kind(),
        Some(KnownCallCheckStatusCode::Confirmed)
    );

    let unknown = CallCheckStatusCode::new(9999);
    assert_eq!(unknown.known_kind(), None);
}

#[test]
fn display_messages_are_human_readable() {
    let err = ValidationError::Empty { field: "to" };
    assert_eq!(err.message(), "to must not be empty");

    let err = ValidationError::TooManyRecipients { max: 2, actual: 3 };
    assert_eq!(err.message(), "too many recipients: 3 (max 2)");

    let err = ValidationError::InvalidPhoneNumber {
        input: "bad".to_owned(),
    };
    assert_eq!(err.message(), "invalid phone number: bad");

    let err = ValidationError::TtlOutOfRange {
        min: 1,
        max: 10,
        actual: 11,
    };
    assert_eq!(err.message(), "ttl minutes out of range: 11 (expected 1..=10)");
}

#[test]
fn phone_number_parses_with_region_and_trims() {
    let pn = PhoneNumber::parse(Some("RU"), " 79251234567 ").unwrap();
    assert_eq!(pn.raw(), "79251234567");
}

#[test]
fn raw_phone_number_from_phone_number_uses_e164() {
    let pn = PhoneNumber::parse(Some("RU"), "79251234567").unwrap();
    let raw: RawPhoneNumber = pn.into();
    assert_eq!(raw.raw(), "+79251234567");
}

#[test]
fn phone_number_parsing_and_equality_use_e164() {
    let p1 = PhoneNumber::parse(None, "+79251234567").unwrap();
    let p2 = PhoneNumber::parse(None, "+7 925 123-45-67").unwrap();
    assert_eq!(p1, p2);
    assert_eq!(p1.e164(), "+79251234567");
    assert_eq!(p1.raw(), "+79251234567");

    let raw: RawPhoneNumber = p1.clone().into();
    assert_eq!(raw.raw(), "+79251234567");
    assert!(PhoneNumber::parse(None, "not-a-number").is_err());
}
