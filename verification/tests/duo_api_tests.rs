use free_duolingo_plus::code::normalize;
use free_duolingo_plus::duo_api::{
    credentials_from_response, AccountData, DuoApi, UserCreationData, UserCreationResponse,
    UserCredentialsData,
};
use free_duolingo_plus::errors::{TransportError, ValidationError};

#[test]
fn valid_code() {
    let code = "A".repeat(26);
    assert_eq!(DuoApi::parse_code(&code), Ok(code.to_string()));
}

#[test]
fn valid_link() {
    let code = "A".repeat(26);
    let link = format!("https://invite.duolingo.com/{code}");

    assert_eq!(DuoApi::parse_code(&link), Ok(code));
}

#[test]
fn undercase_code() {
    let code = "a".repeat(26);
    assert_eq!(DuoApi::parse_code(&code), Ok(code.to_uppercase()));
}

#[test]
fn incorrect_length_code() {
    let short_code = "A".repeat(25);
    let long_code = "A".repeat(27);

    assert!(DuoApi::parse_code(&short_code).is_err());
    assert!(DuoApi::parse_code(&long_code).is_err());
}

#[test]
fn incorrect_characters_code() {
    let code = "_".repeat(26);
    assert!(DuoApi::parse_code(code.as_str()).is_err());
}

#[test]
fn parse_code_error_message() {
    assert_eq!(
        DuoApi::parse_code("too short"),
        Err(String::from("Invalid referral code/link"))
    );
}

#[test]
fn normalize_mixed_case_code() {
    let code = normalize("aB3dEf7hIjKlMnOpQrStUvWxY9").expect("valid code");
    assert_eq!(code.as_str(), "AB3DEF7HIJKLMNOPQRSTUVWXY9");
}

#[test]
fn normalize_link_same_as_bare_code() {
    let bare = normalize("bdhtztb5cwwktvw2ucdty27mbe").expect("valid code");
    let linked = normalize("https://invite.duolingo.com/bdhtztb5cwwktvw2ucdty27mbe")
        .expect("valid link");
    assert_eq!(bare.as_str(), linked.as_str());
}

#[test]
fn normalize_rejects_bad_inputs() {
    assert!(matches!(normalize(""), Err(ValidationError::InvalidCode)));
    assert!(matches!(
        normalize(&"A".repeat(25)),
        Err(ValidationError::InvalidCode)
    ));
    assert!(matches!(
        normalize(&"A".repeat(27)),
        Err(ValidationError::InvalidCode)
    ));
    assert!(matches!(
        normalize(&"-".repeat(26)),
        Err(ValidationError::InvalidCode)
    ));
    assert!(matches!(
        normalize("https://invite.duolingo.com/"),
        Err(ValidationError::InvalidCode)
    ));
}

#[test]
fn referral_code_duplicate_keeps_value() {
    let code = normalize(&"b".repeat(26)).expect("valid code");
    assert_eq!(code.duplicate().as_str(), "B".repeat(26));
    assert_eq!(code.into_string(), "B".repeat(26));
}

#[test]
fn creation_payload_fields() {
    let code = normalize(&"A".repeat(26)).expect("valid code");
    let payload = UserCreationData::new(&code);
    assert_eq!(payload.timezone, "America/Montreal");
    assert_eq!(payload.from_language, "en");
    assert_eq!(payload.invite_code, "A".repeat(26));
    assert_eq!(payload.distinct_id.chars().count(), 36);
    assert_eq!(
        payload.signal.site_key,
        "6LcLOdsjAAAAAFfwGusLLnnn492SOGhsCh-uEAvI"
    );
    assert_eq!(payload.signal.token, "-");
    assert_eq!(payload.signal.vendor, 2);
}

#[test]
fn creation_payload_fresh_correlation_ids() {
    let code = normalize(&"A".repeat(26)).expect("valid code");
    let first = UserCreationData::new(&code);
    let second = UserCreationData::new(&code);
    assert_ne!(first.distinct_id, second.distinct_id);
}

#[test]
fn credentials_payload_fields() {
    let payload = UserCredentialsData::new();
    assert_eq!(payload.password.chars().count(), 15);
    assert!(!payload.email.is_empty());
    assert_eq!(payload.age, "5");
    assert_eq!(payload.signal.vendor, 2);
}

#[test]
fn creation_response_success() {
    let account = AccountData::from_response_parts(
        201,
        Some(String::from("jwt-token-value")),
        Some(UserCreationResponse { id: 4711 }),
    )
    .expect("successful response");
    assert_eq!(account.id, 4711);
    assert_eq!(account.token, "jwt-token-value");
}

#[test]
fn creation_response_rejected_status() {
    let r = AccountData::from_response_parts(
        403,
        Some(String::from("jwt-token-value")),
        Some(UserCreationResponse { id: 1 }),
    );
    assert!(matches!(r, Err(TransportError::RemoteRejected)));
}

#[test]
fn creation_response_missing_token() {
    let r = AccountData::from_response_parts(200, None, Some(UserCreationResponse { id: 1 }));
    assert!(matches!(r, Err(TransportError::AuthTokenMissing)));
}

#[test]
fn credentials_response_by_status() {
    assert!(matches!(credentials_from_response(200), Ok(())));
    assert!(matches!(credentials_from_response(204), Ok(())));
    assert!(matches!(
        credentials_from_response(401),
        Err(TransportError::RemoteRejected)
    ));
    assert!(matches!(
        credentials_from_response(500),
        Err(TransportError::RemoteRejected)
    ));
}

#[test]
fn creation_response_malformed_body() {
    let r = AccountData::from_response_parts(200, Some(String::from("jwt-token-value")), None);
    assert!(matches!(r, Err(TransportError::MalformedResponse)));
}
