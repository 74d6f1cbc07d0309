use vstd::prelude::*;

use crate::api::api_call::{
    url_with_params, HttpMethod, TwitchApiCall, TwitchApiCallType,
};
use crate::auth::access_token::AccessToken;
use crate::auth::owned::OwnedAuthProvider;
use crate::auth::provider::{AuthProvider, AuthProviderError, AuthResponse, TokenStep};
use crate::User;

verus! {

broadcast use vstd::layout::layout_of_unit_tuple;

/// The failure of a call that the platform answered with a non-success
/// status; it carries the URL that was requested and the status that came
/// back.
#[derive(Debug)]
pub struct RequestError {
    pub url: String,
    pub status: u16,
}

/// Everything the transport needs to issue one request: the fully
/// qualified URL, the method, and the headers in order.
pub struct RequestParts {
    pub url: String,
    pub method: HttpMethod,
    pub headers: Vec<(String, String)>,
}

/// The two headers an authenticated call carries: the client identifier
/// and the bearer credential.
pub open spec fn spec_auth_headers(client_id: Seq<char>, access_token: Seq<char>) -> Seq<
    (Seq<char>, Seq<char>),
> {
    seq![("Client-ID"@, client_id), ("Authorization"@, "Bearer "@ + access_token)]
}

/// Whether an HTTP status reports success.
pub open spec fn spec_is_success(status: u16) -> bool {
    200 <= status < 300
}

/// Orchestrates a call descriptor, the auth provider and the transport:
/// it prepares authenticated or anonymous requests and judges responses.
/// The transport itself is a collaborator outside this library; whoever
/// runs it hands statuses and decoded bodies back in.
pub struct ApiClient {
    pub auth: OwnedAuthProvider,
}

impl ApiClient {
    /// A client around a type-erased provider.
    pub fn new(auth: OwnedAuthProvider) -> (r: ApiClient)
        ensures
            r.auth == auth,
    {
        ApiClient { auth }
    }

    /// The scopes a descriptor demands: its one required scope, or none.
    pub open spec fn spec_call_scopes<T>(call: &TwitchApiCall<T>) -> Seq<Seq<char>> {
        match call.scope.deep_view() {
            Some(s) => seq![s],
            None => Seq::empty(),
        }
    }

    /// Begin an authenticated call: derive the scope demand from the
    /// descriptor and take one acquisition step of the provider.
    pub fn begin_call<T>(&mut self, call: &TwitchApiCall<T>, now: u64) -> (r: TokenStep)
        ensures
            r@ == old(self).auth.spec_token_step(Self::spec_call_scopes(call), now),
            final(self).auth@ == old(self).auth.spec_after_token_step(
                Self::spec_call_scopes(call),
                now,
            ),
    {
        match call.scope() {
            Some(s) => {
                let mut scopes: Vec<String> = Vec::new();
                scopes.push(s.to_owned());
                proof {
                    assert(scopes.deep_view() =~= Self::spec_call_scopes(call));
                }
                self.auth.access_token_with_scopes(&scopes, now)
            },
            None => {
                proof {
                    assert(Self::spec_call_scopes(call) =~= Seq::<Seq<char>>::empty());
                }
                self.auth.access_token(now)
            },
        }
    }

    /// Finish an authenticated call whose beginning asked for a round
    /// trip, handing in what the driver brought back.
    pub fn resume_call<T>(&mut self, call: &TwitchApiCall<T>, response: AuthResponse, now: u64) -> (r:
        Result<AccessToken, AuthProviderError>)
        ensures
            (match r {
                Ok(token) => Ok(token@),
                Err(e) => Err(e.description@),
            }) == old(self).auth.spec_resume(Self::spec_call_scopes(call), response@, now),
            final(self).auth@ == old(self).auth.spec_after_resume(
                Self::spec_call_scopes(call),
                response@,
                now,
            ),
    {
        match call.scope() {
            Some(s) => {
                let mut scopes: Vec<String> = Vec::new();
                scopes.push(s.to_owned());
                proof {
                    assert(scopes.deep_view() =~= Self::spec_call_scopes(call));
                }
                self.auth.resume_access_token(&scopes, response, now)
            },
            None => {
                let scopes: Vec<String> = Vec::new();
                proof {
                    assert(scopes.deep_view() =~= Self::spec_call_scopes(call));
                }
                self.auth.resume_access_token(&scopes, response, now)
            },
        }
    }

    /// The request an anonymous invocation issues: the resolved URL and
    /// method, with no headers attached. `None` where a custom URL does
    /// not parse.
    pub fn call_api_without_credentials<T>(call: &TwitchApiCall<T>) -> (r: Option<RequestParts>)
        ensures
            r is Some <==> url_with_params(call.spec_base_url(), call.params.deep_view()) is Some,
            r matches Some(parts) ==> {
                &&& parts.url@ == url_with_params(call.spec_base_url(), call.params.deep_view())->0
                &&& parts.method == call.method
                &&& parts.headers.deep_view() == Seq::<(Seq<char>, Seq<char>)>::empty()
            },
    {
        match call.full_url() {
            Some(url) => {
                let headers: Vec<(String, String)> = Vec::new();
                proof {
                    assert(headers.deep_view() =~= Seq::<(Seq<char>, Seq<char>)>::empty());
                }
                Some(RequestParts { url, method: call.method(), headers })
            },
            None => None,
        }
    }

    /// The request an explicitly credentialed invocation issues: the
    /// resolved URL and method, a `Client-ID` header, and the credential
    /// as a bearer `Authorization` header.
    pub fn call_api_with_credentials<T>(
        call: &TwitchApiCall<T>,
        client_id: &str,
        access_token: &str,
    ) -> (r: Option<RequestParts>)
        ensures
            r is Some <==> url_with_params(call.spec_base_url(), call.params.deep_view()) is Some,
            r matches Some(parts) ==> {
                &&& parts.url@ == url_with_params(call.spec_base_url(), call.params.deep_view())->0
                &&& parts.method == call.method
                &&& parts.headers.deep_view() == spec_auth_headers(client_id@, access_token@)
            },
    {
        match call.full_url() {
            Some(url) => {
                let mut bearer = "Bearer ".to_owned();
                bearer.append(access_token);
                let mut headers: Vec<(String, String)> = Vec::new();
                headers.push(("Client-ID".to_owned(), client_id.to_owned()));
                headers.push(("Authorization".to_owned(), bearer));
                proof {
                    assert(headers.deep_view() =~= spec_auth_headers(client_id@, access_token@));
                }
                Some(RequestParts { url, method: call.method(), headers })
            },
            None => None,
        }
    }

    /// Judge a response's status: success passes, anything else is a
    /// [`RequestError`] carrying the URL and the status.
    pub fn check_status(url: &str, status: u16) -> (r: Result<(), RequestError>)
        ensures
            r is Ok <==> spec_is_success(status),
            r matches Err(e) ==> e.url@ == url@ && e.status == status,
    {
        if 200 <= status && status < 300 {
            Ok(())
        } else {
            Err(RequestError { url: url.to_owned(), status })
        }
    }

    /// The descriptor of the client-credentials grant exchange.
    pub fn get_app_access_token_call(client_id: &str, client_secret: &str) -> (r: TwitchApiCall)
        ensures
            r.call_type == TwitchApiCallType::Auth,
            r.url@ == "token"@,
            r.method == HttpMethod::Post,
            r.params.deep_view() == seq![
                ("grant_type"@, "client_credentials"@),
                ("client_id"@, client_id@),
                ("client_secret"@, client_secret@),
            ],
            r.scope is None,
    {
        let built = TwitchApiCall::builder_empty()
            .with_call_type(TwitchApiCallType::Auth)
            .with_url("token")
            .with_method(HttpMethod::Post)
            .with_param("grant_type", "client_credentials")
            .with_param("client_id", client_id)
            .with_param("client_secret", client_secret)
            .build();
        match built {
            Ok(call) => {
                proof {
                    assert(call.params.deep_view() =~= seq![
                        ("grant_type"@, "client_credentials"@),
                        ("client_id"@, client_id@),
                        ("client_secret"@, client_secret@),
                    ]);
                }
                call
            },
            Err(_) => unreached(),
        }
    }

    /// The descriptor of the refresh-token grant exchange.
    pub fn refresh_access_token_call(
        client_id: &str,
        client_secret: &str,
        refresh_token: &str,
    ) -> (r: TwitchApiCall)
        ensures
            r.call_type == TwitchApiCallType::Auth,
            r.url@ == "token"@,
            r.method == HttpMethod::Post,
            r.params.deep_view() == seq![
                ("grant_type"@, "refresh_token"@),
                ("client_id"@, client_id@),
                ("client_secret"@, client_secret@),
                ("refresh_token"@, refresh_token@),
            ],
            r.scope is None,
    {
        let built = TwitchApiCall::builder_empty()
            .with_call_type(TwitchApiCallType::Auth)
            .with_url("token")
            .with_method(HttpMethod::Post)
            .with_param("grant_type", "refresh_token")
            .with_param("client_id", client_id)
            .with_param("client_secret", client_secret)
            .with_param("refresh_token", refresh_token)
            .build();
        match built {
            Ok(call) => {
                proof {
                    assert(call.params.deep_view() =~= seq![
                        ("grant_type"@, "refresh_token"@),
                        ("client_id"@, client_id@),
                        ("client_secret"@, client_secret@),
                        ("refresh_token"@, refresh_token@),
                    ]);
                }
                call
            },
            Err(_) => unreached(),
        }
    }

    /// The descriptor of the token-validation round trip.
    pub fn get_token_info_call() -> (r: TwitchApiCall)
        ensures
            r.call_type == TwitchApiCallType::Auth,
            r.url@ == "validate"@,
            r.method == HttpMethod::Get,
            r.params.deep_view() == Seq::<(Seq<char>, Seq<char>)>::empty(),
            r.scope is None,
    {
        let built = TwitchApiCall::builder_empty()
            .with_call_type(TwitchApiCallType::Auth)
            .with_url("validate")
            .build();
        match built {
            Ok(call) => call,
            Err(_) => unreached(),
        }
    }

    /// The descriptor of the "current user" data endpoint.
    pub fn get_me_call() -> (r: TwitchApiCall)
        ensures
            r.call_type == TwitchApiCallType::Helix,
            r.url@ == "users"@,
            r.method == HttpMethod::Get,
            r.params.deep_view() == Seq::<(Seq<char>, Seq<char>)>::empty(),
            r.scope is None,
    {
        let built = TwitchApiCall::builder_empty().with_call_type(
            TwitchApiCallType::Helix,
        ).with_url("users").build();
        match built {
            Ok(call) => call,
            Err(_) => unreached(),
        }
    }

    /// The descriptor of the "user by login" data endpoint.
    pub fn get_user_by_login_call(login: &str) -> (r: TwitchApiCall)
        ensures
            r.call_type == TwitchApiCallType::Helix,
            r.url@ == "users"@,
            r.method == HttpMethod::Get,
            r.params.deep_view() == seq![("login"@, login@)],
            r.scope is None,
    {
        let built = TwitchApiCall::builder_empty()
            .with_call_type(TwitchApiCallType::Helix)
            .with_url("users")
            .with_param("login", login)
            .build();
        match built {
            Ok(call) => {
                proof {
                    assert(call.params.deep_view() =~= seq![("login"@, login@)]);
                }
                call
            },
            Err(_) => unreached(),
        }
    }

    /// The current user out of a decoded "current user" response, whose
    /// one record the endpoint always returns.
    pub fn me_from_response(data: Vec<User>) -> (r: User)
        requires
            data@.len() > 0,
        ensures
            r == data@[0],
    {
        let mut data = data;
        data.swap_remove(0)
    }

    /// The user a "user by login" response names: an empty record list
    /// means no such user, not a failure.
    pub fn user_from_response(data: Vec<User>) -> (r: Option<User>)
        ensures
            data@.len() == 0 ==> r is None,
            data@.len() > 0 ==> r == Some(data@[0]),
    {
        let mut data = data;
        if data.is_empty() {
            None
        } else {
            Some(data.swap_remove(0))
        }
    }
}

} // verus!
