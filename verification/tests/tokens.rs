use twitch_api::api::token_info::{TokenInfo, TokenInfoData};
use twitch_api::auth::access_token::{AccessToken, AccessTokenData};

fn data(ttl: Option<u64>) -> AccessTokenData {
    AccessTokenData {
        access_token: "tok".to_string(),
        refresh_token: Some("refresh".to_string()),
        expires_in: ttl,
        scope: vec!["a".to_string(), "b".to_string()],
    }
}

#[test]
fn token_with_ttl_expires_just_after_its_life() {
    let t = 1_000_000u64;
    let token = AccessToken::with_obtainment_date(data(Some(3600)), t);
    assert!(!token.is_expired_at(t + 3599));
    assert!(!token.is_expired_at(t + 3600));
    assert!(token.is_expired_at(t + 3601));
}

#[test]
fn token_without_ttl_never_expires() {
    let token = AccessToken::with_obtainment_date(data(None), 1000);
    assert!(!token.is_expired_at(1000));
    assert!(!token.is_expired_at(u64::MAX));
    assert!(!token.is_expired());
}

#[test]
fn token_before_its_obtainment_is_not_expired() {
    let token = AccessToken::with_obtainment_date(data(Some(10)), 1000);
    assert!(!token.is_expired_at(0));
}

#[test]
fn token_accessors_report_the_grant() {
    let token = AccessToken::with_obtainment_date(data(Some(60)), 5);
    assert_eq!(token.access_token(), "tok");
    assert_eq!(token.refresh_token(), Some("refresh"));
    assert_eq!(token.scopes(), ["a".to_string(), "b".to_string()]);
}

#[test]
fn empty_token_has_no_credential_and_no_expiry() {
    let token = AccessToken::empty();
    assert_eq!(token.access_token(), "");
    assert!(token.refresh_token().is_none());
    assert!(token.scopes().is_empty());
    assert!(!token.is_expired());
}

#[test]
fn fresh_token_is_not_expired_within_its_ttl() {
    let token = AccessToken::new(data(Some(3600)));
    assert!(!token.is_expired());
}

#[test]
fn with_access_token_carries_only_the_credential() {
    let token = AccessToken::with_access_token("abc".to_string());
    assert_eq!(token.access_token(), "abc");
    assert!(token.refresh_token().is_none());
    assert!(token.scopes().is_empty());
}

#[test]
fn with_access_token_and_scopes_carries_both() {
    let token = AccessToken::with_access_token_and_scopes(
        "abc".to_string(),
        vec!["x".to_string()],
    );
    assert_eq!(token.access_token(), "abc");
    assert_eq!(token.scopes(), ["x".to_string()]);
}

fn info(expires_in: Option<u64>) -> TokenInfoData {
    TokenInfoData {
        client_id: "cid".to_string(),
        login: "user".to_string(),
        scopes: vec!["chat:read".to_string()],
        user_id: "42".to_string(),
        expires_in,
    }
}

#[test]
fn token_info_reports_its_fields() {
    let ti = TokenInfo { data: info(None), obtainment_date: 100 };
    assert_eq!(ti.client_id(), "cid");
    assert_eq!(ti.scopes(), ["chat:read".to_string()]);
    assert!(ti.expiry_date().is_none());
}

#[test]
fn token_info_expiry_is_obtainment_plus_remaining_life() {
    let ti = TokenInfo { data: info(Some(50)), obtainment_date: 100 };
    assert_eq!(ti.expiry_date(), Some(150));
}

#[test]
fn token_info_expiry_saturates() {
    let ti = TokenInfo { data: info(Some(u64::MAX)), obtainment_date: 100 };
    assert_eq!(ti.expiry_date(), Some(u64::MAX));
}

#[test]
fn token_info_new_reads_the_clock() {
    let ti = TokenInfo::new(info(Some(60)));
    let expiry = ti.expiry_date().unwrap();
    assert!(expiry >= 60);
}
