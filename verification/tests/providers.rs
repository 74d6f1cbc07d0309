use twitch_api::auth::access_token::{AccessToken, AccessTokenData};
use twitch_api::auth::client_credentials::ClientCredentialsAuthProvider;
use twitch_api::auth::provider::{AuthProvider, AuthRequest, AuthResponse, TokenStep};
use twitch_api::auth::stat::StaticAuthProvider;

fn scopes(names: &[&str]) -> Vec<String> {
    names.iter().map(|s| s.to_string()).collect()
}

fn token_with_ttl(credential: &str, ttl: Option<u64>, obtained: u64) -> AccessToken {
    AccessToken::with_obtainment_date(
        AccessTokenData {
            access_token: credential.to_string(),
            refresh_token: None,
            expires_in: ttl,
            scope: Vec::new(),
        },
        obtained,
    )
}

#[test]
fn static_scope_request_before_any_token_fails() {
    let mut p = StaticAuthProvider::new("cid".to_string());
    match p.access_token_with_scopes(&scopes(&["x"]), 0) {
        TokenStep::Ready(Err(e)) => {
            assert_eq!(
                e.description(),
                "Auth provider has not been initialized with a token yet and is requesting scopes"
            );
        }
        _ => panic!("expected an immediate failure"),
    }
}

#[test]
fn static_granted_scope_request_succeeds() {
    let mut p = StaticAuthProvider::with_scopes("cid".to_string(), "tok".to_string(), scopes(&["x", "y"]));
    match p.access_token_with_scopes(&scopes(&["x"]), 0) {
        TokenStep::Ready(Ok(token)) => assert_eq!(token.access_token(), "tok"),
        _ => panic!("expected the held token"),
    }
}

#[test]
fn static_missing_scope_request_fails_naming_it() {
    let mut p = StaticAuthProvider::with_scopes("cid".to_string(), "tok".to_string(), scopes(&["x", "y"]));
    match p.access_token_with_scopes(&scopes(&["z"]), 0) {
        TokenStep::Ready(Err(e)) => {
            assert_eq!(
                e.description(),
                "This token does not have the requested scopes (z) and can not be upgraded"
            );
        }
        _ => panic!("expected a refusal"),
    }
}

#[test]
fn static_missing_scope_error_names_every_requested_scope() {
    let mut p = StaticAuthProvider::with_scopes("cid".to_string(), "tok".to_string(), scopes(&["x"]));
    match p.access_token_with_scopes(&scopes(&["x", "z"]), 0) {
        TokenStep::Ready(Err(e)) => {
            assert_eq!(
                e.description(),
                "This token does not have the requested scopes (x, z) and can not be upgraded"
            );
        }
        _ => panic!("expected a refusal"),
    }
}

#[test]
fn static_unknown_scopes_ask_for_one_validation() {
    let mut p = StaticAuthProvider::with_access_token("cid".to_string(), "tok".to_string(), None);
    match p.access_token_with_scopes(&scopes(&["x"]), 0) {
        TokenStep::Fetch(AuthRequest::Validate { client_id, access_token }) => {
            assert_eq!(client_id, "cid");
            assert_eq!(access_token, "tok");
        }
        _ => panic!("expected a validation round trip"),
    }
}

#[test]
fn static_discovery_caches_scopes_and_answers() {
    let mut p = StaticAuthProvider::with_access_token("cid".to_string(), "tok".to_string(), None);
    let requested = scopes(&["x"]);
    match p.access_token_with_scopes(&requested, 0) {
        TokenStep::Fetch(_) => {}
        _ => panic!("expected a validation round trip"),
    }
    let r = p.resume_access_token(&requested, AuthResponse::Scopes(scopes(&["x", "y"])), 0);
    assert_eq!(r.unwrap().access_token(), "tok");
    assert_eq!(p.current_scopes(), scopes(&["x", "y"]));

    // the cache answers the next demand without another round trip
    match p.access_token_with_scopes(&scopes(&["y"]), 0) {
        TokenStep::Ready(Ok(token)) => assert_eq!(token.access_token(), "tok"),
        _ => panic!("expected the cached scopes to answer"),
    }
}

#[test]
fn static_discovery_of_missing_scope_fails_naming_it() {
    let mut p = StaticAuthProvider::with_access_token("cid".to_string(), "tok".to_string(), None);
    let requested = scopes(&["z"]);
    match p.access_token_with_scopes(&requested, 0) {
        TokenStep::Fetch(_) => {}
        _ => panic!("expected a validation round trip"),
    }
    let r = p.resume_access_token(&requested, AuthResponse::Scopes(scopes(&["x", "y"])), 0);
    let e = r.err().unwrap();
    assert_eq!(
        e.description(),
        "This token does not have the requested scopes (z) and can not be upgraded"
    );
}

#[test]
fn static_empty_scope_request_hands_out_the_held_token_as_is() {
    // even an expired static token is handed out: it has no refresh path
    let mut p = StaticAuthProvider::new("cid".to_string());
    p.set_access_token(token_with_ttl("old", Some(1), 0));
    match p.access_token(1_000_000) {
        TokenStep::Ready(Ok(token)) => assert_eq!(token.access_token(), "old"),
        _ => panic!("expected the held token"),
    }
}

#[test]
fn static_without_token_hands_out_an_empty_token() {
    let mut p = StaticAuthProvider::new("cid".to_string());
    match p.access_token(5) {
        TokenStep::Ready(Ok(token)) => assert_eq!(token.access_token(), ""),
        _ => panic!("expected an empty token"),
    }
}

#[test]
fn static_provider_reports_client_id_and_scopes() {
    let p = StaticAuthProvider::with_scopes("cid".to_string(), "tok".to_string(), scopes(&["x"]));
    assert_eq!(p.client_id(), "cid");
    assert_eq!(p.current_scopes(), scopes(&["x"]));
    let q = StaticAuthProvider::new("cid".to_string());
    assert!(q.current_scopes().is_empty());
}

#[test]
fn client_credentials_scope_request_always_fails() {
    let mut p = ClientCredentialsAuthProvider::new("cid".to_string(), "secret".to_string());
    for _ in 0..2 {
        match p.access_token_with_scopes(&scopes(&["x"]), 0) {
            TokenStep::Ready(Err(e)) => {
                assert_eq!(e.description(), "The client credentials flow does not support scopes");
            }
            _ => panic!("expected a refusal"),
        }
        // also once a token is cached
        p.set_access_token(token_with_ttl("tok", None, 0));
    }
}

#[test]
fn client_credentials_serves_the_cached_token_while_fresh() {
    let mut p = ClientCredentialsAuthProvider::new("cid".to_string(), "secret".to_string());
    p.set_access_token(token_with_ttl("tok", Some(3600), 1000));
    let first = match p.access_token(2000) {
        TokenStep::Ready(Ok(token)) => token,
        _ => panic!("expected the cached token"),
    };
    let second = match p.access_token(2000) {
        TokenStep::Ready(Ok(token)) => token,
        _ => panic!("expected the cached token again, with no round trip"),
    };
    assert_eq!(first.access_token(), "tok");
    assert_eq!(second.access_token(), "tok");
}

#[test]
fn client_credentials_refreshes_an_absent_or_expired_cache() {
    let mut p = ClientCredentialsAuthProvider::new("cid".to_string(), "secret".to_string());
    match p.access_token(0) {
        TokenStep::Fetch(AuthRequest::AppAccessGrant { client_id, client_secret }) => {
            assert_eq!(client_id, "cid");
            assert_eq!(client_secret, "secret");
        }
        _ => panic!("expected a grant exchange"),
    }

    p.set_access_token(token_with_ttl("old", Some(10), 0));
    match p.access_token(1_000) {
        TokenStep::Fetch(AuthRequest::AppAccessGrant { .. }) => {}
        _ => panic!("expected a grant exchange for the expired cache"),
    }

    // exactly one refresh: its token is handed out, cached, and then served
    let fresh = token_with_ttl("fresh", Some(3600), 1_000);
    let r = p.resume_access_token(&Vec::new(), AuthResponse::Token(fresh), 1_000);
    assert_eq!(r.unwrap().access_token(), "fresh");
    match p.access_token(1_001) {
        TokenStep::Ready(Ok(token)) => assert_eq!(token.access_token(), "fresh"),
        _ => panic!("expected the freshly cached token"),
    }
}

#[test]
fn client_credentials_has_no_scopes() {
    let p = ClientCredentialsAuthProvider::new("cid".to_string(), "secret".to_string());
    assert_eq!(p.client_id(), "cid");
    assert!(p.current_scopes().is_empty());
}
