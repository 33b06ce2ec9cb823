use free_duolingo_plus::errors::TransportError;
use free_duolingo_plus::quota::{
    quota_from_response, referrer_id_from_location, resolve_referrer_id,
};

#[test]
fn referrer_id_from_double_escaped_redirect() {
    let location =
        "https://www.duolingo.com/invite-redirect?user_invite=BDHTZTB5CWWKTVW2UCDTY27MBE%26inviter_id%3D925130045";
    assert_eq!(resolve_referrer_id(location), Ok(String::from("925130045")));
}

#[test]
fn referrer_id_single_parameter() {
    let location = "http://example.com/r?inviter_id%3D42";
    assert_eq!(resolve_referrer_id(location), Ok(String::from("42")));
}

#[test]
fn referrer_id_plain_query_string() {
    let location = "https://example.com/r?inviter_id=7&other=1";
    assert_eq!(resolve_referrer_id(location), Ok(String::from("7")));
}

#[test]
fn referrer_id_rejects_non_url() {
    let r = resolve_referrer_id("certainly not a url");
    assert_eq!(r, Err(TransportError::MalformedRedirect));
}

#[test]
fn referrer_id_rejects_url_without_query() {
    let r = resolve_referrer_id("https://www.duolingo.com/");
    assert_eq!(r, Err(TransportError::MalformedRedirect));
}

#[test]
fn referrer_id_rejects_query_without_inviter() {
    let r = resolve_referrer_id("https://www.duolingo.com/r?user_invite%3DABC");
    assert_eq!(r, Err(TransportError::MalformedRedirect));
}

#[test]
fn referrer_id_missing_location_header() {
    assert_eq!(
        referrer_id_from_location(None),
        Err(TransportError::MissingRedirect)
    );
    assert_eq!(
        referrer_id_from_location(Some("https://e.com/r?inviter_id%3D5")),
        Ok(String::from("5"))
    );
}

#[test]
fn quota_response_success() {
    let q = quota_from_response(200, Some(14)).expect("successful response");
    assert_eq!(q.weeks, 14);
}

#[test]
fn quota_response_rejected_status() {
    assert!(matches!(
        quota_from_response(500, Some(14)),
        Err(TransportError::RemoteRejected)
    ));
}

#[test]
fn quota_response_malformed_body() {
    assert!(matches!(
        quota_from_response(204, None),
        Err(TransportError::MalformedResponse)
    ));
}
