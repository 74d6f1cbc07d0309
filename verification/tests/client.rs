use twitch_api::api::api_call::{HttpMethod, TwitchApiCallType};
use twitch_api::api::client::ApiClient;
use twitch_api::auth::owned::OwnedAuthProvider;
use twitch_api::auth::provider::{AuthProvider, TokenStep};
use twitch_api::auth::stat::StaticAuthProvider;
use twitch_api::User;

fn decode_users(body: &str) -> Vec<User> {
    let v: serde_json::Value = serde_json::from_str(body).unwrap();
    let records = v.get("data").unwrap().as_array().unwrap();
    let mut users = Vec::new();
    for record in records {
        users.push(User {
            id: record.get("id").unwrap().as_str().unwrap().to_string(),
            login: record.get("login").unwrap().as_str().unwrap().to_string(),
        });
    }
    users
}

#[test]
fn get_user_by_login_against_a_mocked_transport() {
    // the caller's side of one authenticated data call, with the transport
    // played by this test
    let provider = StaticAuthProvider::with_scopes("cid".to_string(), "tok".to_string(), Vec::new());
    let mut client = ApiClient::new(OwnedAuthProvider::new(provider));

    let call = ApiClient::get_user_by_login_call("foo");
    let token = match client.begin_call(&call, 0) {
        TokenStep::Ready(Ok(token)) => token,
        _ => panic!("a static provider answers without a round trip"),
    };

    let parts = ApiClient::call_api_with_credentials(
        &call,
        client.auth.client_id(),
        token.access_token(),
    )
    .unwrap();
    assert_eq!(parts.url, "https://api.twitch.tv/helix/users?login=foo");
    assert_eq!(parts.method, HttpMethod::Get);
    assert_eq!(
        parts.headers,
        vec![
            ("Client-ID".to_string(), "cid".to_string()),
            ("Authorization".to_string(), "Bearer tok".to_string()),
        ]
    );

    // the mocked transport answers
    let status = 200u16;
    let body = "{\"data\":[{\"id\":\"1\",\"login\":\"foo\"}]}";

    assert!(ApiClient::check_status(&parts.url, status).is_ok());
    let user = ApiClient::user_from_response(decode_users(body)).unwrap();
    assert_eq!(user.id, "1");
    assert_eq!(user.login, "foo");
}

#[test]
fn get_user_by_login_with_no_record_is_no_user_not_an_error() {
    let body = "{\"data\":[]}";
    let user = ApiClient::user_from_response(decode_users(body));
    assert!(user.is_none());
}

#[test]
fn me_from_response_takes_the_first_record() {
    let body = "{\"data\":[{\"id\":\"9\",\"login\":\"me\"}]}";
    let me = ApiClient::me_from_response(decode_users(body));
    assert_eq!(me.id, "9");
    assert_eq!(me.login, "me");
}

#[test]
fn non_success_status_is_a_request_error_with_url_and_status() {
    let e = ApiClient::check_status("https://api.twitch.tv/helix/users", 404).err().unwrap();
    assert_eq!(e.url, "https://api.twitch.tv/helix/users");
    assert_eq!(e.status, 404);
    assert!(ApiClient::check_status("u", 200).is_ok());
    assert!(ApiClient::check_status("u", 299).is_ok());
    assert!(ApiClient::check_status("u", 300).is_err());
    assert!(ApiClient::check_status("u", 199).is_err());
}

#[test]
fn app_access_token_call_carries_the_grant_parameters() {
    let call = ApiClient::get_app_access_token_call("cid", "secret");
    assert_eq!(call.call_type, TwitchApiCallType::Auth);
    assert_eq!(call.method(), HttpMethod::Post);
    assert_eq!(
        call.full_url().unwrap(),
        "https://id.twitch.tv/oauth2/token?grant_type=client_credentials&client_id=cid&client_secret=secret"
    );
}

#[test]
fn refresh_access_token_call_carries_the_refresh_parameters() {
    let call = ApiClient::refresh_access_token_call("cid", "secret", "refresh");
    assert_eq!(call.call_type, TwitchApiCallType::Auth);
    assert_eq!(call.method(), HttpMethod::Post);
    assert_eq!(
        call.full_url().unwrap(),
        "https://id.twitch.tv/oauth2/token?grant_type=refresh_token&client_id=cid&client_secret=secret&refresh_token=refresh"
    );
}

#[test]
fn token_info_call_targets_the_validation_endpoint() {
    let call = ApiClient::get_token_info_call();
    assert_eq!(call.full_url().unwrap(), "https://id.twitch.tv/oauth2/validate?");
    assert_eq!(call.method(), HttpMethod::Get);
}

#[test]
fn me_call_targets_the_users_endpoint() {
    let call = ApiClient::get_me_call();
    assert_eq!(call.full_url().unwrap(), "https://api.twitch.tv/helix/users?");
}

#[test]
fn anonymous_requests_carry_no_headers() {
    let call = ApiClient::get_app_access_token_call("cid", "secret");
    let parts = ApiClient::call_api_without_credentials(&call).unwrap();
    assert!(parts.headers.is_empty());
    assert_eq!(parts.method, HttpMethod::Post);
}

#[test]
fn begin_call_demands_the_descriptor_scope() {
    let provider = StaticAuthProvider::with_scopes(
        "cid".to_string(),
        "tok".to_string(),
        vec!["clips:edit".to_string()],
    );
    let mut client = ApiClient::new(OwnedAuthProvider::new(provider));

    let granted = twitch_api::api::api_call::TwitchApiCall::<()>::builder_empty()
        .with_url("clips")
        .with_scope("clips:edit")
        .build()
        .unwrap();
    match client.begin_call(&granted, 0) {
        TokenStep::Ready(Ok(token)) => assert_eq!(token.access_token(), "tok"),
        _ => panic!("the granted scope should be served"),
    }

    let refused = twitch_api::api::api_call::TwitchApiCall::<()>::builder_empty()
        .with_url("clips")
        .with_scope("other:scope")
        .build()
        .unwrap();
    match client.begin_call(&refused, 0) {
        TokenStep::Ready(Err(e)) => assert_eq!(
            e.description(),
            "This token does not have the requested scopes (other:scope) and can not be upgraded"
        ),
        _ => panic!("the missing scope should be refused"),
    }
}
