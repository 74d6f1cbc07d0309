use twitch_api::auth::access_token::{AccessToken, AccessTokenData};
use twitch_api::auth::client_credentials::ClientCredentialsAuthProvider;
use twitch_api::auth::owned::OwnedAuthProvider;
use twitch_api::auth::poly::CAuthProvider;
use twitch_api::auth::provider::{AuthProvider, AuthRequest, TokenStep};
use twitch_api::auth::stat::StaticAuthProvider;

#[test]
fn adapter_reports_the_wrapped_client_id() {
    let direct = StaticAuthProvider::with_scopes(
        "abc".to_string(),
        "tok".to_string(),
        vec!["x".to_string()],
    );
    let direct_id = direct.client_id().to_string();
    let adapter = OwnedAuthProvider::new(direct);
    assert_eq!(adapter.client_id(), "abc");
    assert_eq!(adapter.client_id(), direct_id);
}

#[test]
fn adapter_dispatches_every_operation_to_the_wrapped_provider() {
    let provider = StaticAuthProvider::with_scopes(
        "abc".to_string(),
        "tok".to_string(),
        vec!["x".to_string()],
    );
    let mut adapter = OwnedAuthProvider::new(provider);
    assert_eq!(adapter.current_scopes(), vec!["x".to_string()]);
    match adapter.access_token(0) {
        TokenStep::Ready(Ok(token)) => assert_eq!(token.access_token(), "tok"),
        _ => panic!("expected the held token through the adapter"),
    }
    let replacement = AccessToken::with_obtainment_date(
        AccessTokenData {
            access_token: "other".to_string(),
            refresh_token: None,
            expires_in: None,
            scope: Vec::new(),
        },
        0,
    );
    adapter.set_access_token(replacement);
    match adapter.access_token(0) {
        TokenStep::Ready(Ok(token)) => assert_eq!(token.access_token(), "other"),
        _ => panic!("expected the replaced token through the adapter"),
    }
}

#[test]
fn adapter_wraps_the_client_credentials_strategy_too() {
    let provider = ClientCredentialsAuthProvider::new("cid".to_string(), "secret".to_string());
    let mut adapter = OwnedAuthProvider::new(provider);
    assert_eq!(adapter.client_id(), "cid");
    match adapter.access_token(0) {
        TokenStep::Fetch(AuthRequest::AppAccessGrant { client_id, .. }) => {
            assert_eq!(client_id, "cid");
        }
        _ => panic!("expected a grant exchange through the adapter"),
    }
}

#[test]
fn erasure_keeps_the_concrete_provider() {
    let erased = CAuthProvider::for_auth_provider(StaticAuthProvider::new("abc".to_string()));
    match &erased {
        CAuthProvider::Static(p) => assert_eq!(p.client_id(), "abc"),
        _ => panic!("expected the static strategy"),
    }
    assert_eq!(erased.client_id(), "abc");
}
