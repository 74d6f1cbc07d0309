use vstd::prelude::*;

use crate::auth::access_token::{AccessToken, AccessTokenData, AccessTokenView};
use crate::auth::provider::{
    all_scopes_contained, missing_scopes_error, missing_scopes_message, scopes_all_contained,
    AuthProvider, AuthProviderError, AuthRequest, AuthRequestView, AuthResponse, AuthResponseView,
    TokenStep, TokenStepView,
};

verus! {

/// The statically supplied strategy: one token, set once or replaced from
/// outside, never refreshed. Scopes may be unknown until a one-time
/// discovery round trip against the authorization server.
pub struct StaticAuthProvider {
    pub client_id: String,
    pub access_token: Option<AccessToken>,
    pub scopes: Option<Vec<String>>,
}

/// Mathematical model of [`StaticAuthProvider`].
#[verifier::ext_equal]
pub ghost struct StaticAuthProviderView {
    pub client_id: Seq<char>,
    pub access_token: Option<AccessTokenView>,
    pub scopes: Option<Seq<Seq<char>>>,
}

impl View for StaticAuthProvider {
    type V = StaticAuthProviderView;

    open spec fn view(&self) -> StaticAuthProviderView {
        StaticAuthProviderView {
            client_id: self.client_id@,
            access_token: self.access_token.deep_view(),
            scopes: self.scopes.deep_view(),
        }
    }
}

impl StaticAuthProviderView {
    /// The token this provider hands out: the held one, or an empty,
    /// never-expiring token obtained at second `now` when none is held.
    pub open spec fn held_or_empty(self, now: u64) -> AccessTokenView {
        match self.access_token {
            Some(t) => t,
            None => AccessTokenView::empty_at(now),
        }
    }
}

impl StaticAuthProvider {
    /// A provider that knows its client identifier but holds no token yet.
    pub fn new(client_id: String) -> (r: Self)
        ensures
            r@ == (StaticAuthProviderView { client_id: client_id@, access_token: None, scopes: None }),
    {
        StaticAuthProvider { client_id, access_token: None, scopes: None }
    }

    /// A provider around a pre-existing credential; the granted scopes may
    /// be known already or left for discovery.
    pub fn with_access_token(client_id: String, access_token: String, scopes: Option<Vec<String>>) -> (r:
        Self)
        ensures
            r@.client_id == client_id@,
            r@.access_token matches Some(t) && t.data.access_token == access_token@
                && t.data.refresh_token is None && t.data.expires_in is None && t.data.scope == (
            match scopes.deep_view() {
                Some(sc) => sc,
                None => Seq::<Seq<char>>::empty(),
            }),
            r@.scopes == scopes.deep_view(),
    {
        let token_scopes: Vec<String> = match &scopes {
            Some(sc) => sc.clone(),
            None => Vec::new(),
        };
        proof {
            if scopes is None {
                assert(token_scopes.deep_view() =~= Seq::<Seq<char>>::empty());
            } else {
                assert(token_scopes.deep_view() =~= scopes.deep_view()->0);
            }
        }
        let token = AccessToken::with_access_token_and_scopes(access_token, token_scopes);
        StaticAuthProvider { client_id, access_token: Some(token), scopes }
    }

    /// A provider around a pre-existing credential whose granted scopes
    /// are known from the start.
    pub fn with_scopes(client_id: String, access_token: String, scopes: Vec<String>) -> (r: Self)
        ensures
            r@.client_id == client_id@,
            r@.access_token matches Some(t) && t.data.access_token == access_token@
                && t.data.refresh_token is None && t.data.expires_in is None && t.data.scope
                == scopes.deep_view(),
            r@.scopes == Some(scopes.deep_view()),
    {
        let token_scopes = scopes.clone();
        proof {
            assert(token_scopes.deep_view() =~= scopes.deep_view());
        }
        let token = AccessToken::with_access_token_and_scopes(access_token, token_scopes);
        StaticAuthProvider { client_id, access_token: Some(token), scopes: Some(scopes) }
    }

    /// The held token, or an empty never-expiring one obtained at `now`.
    fn held_or_empty(&self, now: u64) -> (r: AccessToken)
        ensures
            r@ == self@.held_or_empty(now),
    {
        match &self.access_token {
            Some(t) => t.clone(),
            None => {
                let r = AccessToken::with_obtainment_date(
                    AccessTokenData {
                        access_token: String::new(),
                        refresh_token: None,
                        expires_in: None,
                        scope: Vec::new(),
                    },
                    now,
                );
                proof {
                    assert(r@ =~= AccessTokenView::empty_at(now));
                }
                r
            },
        }
    }
}

impl AuthProvider for StaticAuthProvider {
    open spec fn spec_client_id(&self) -> Seq<char> {
        self.client_id@
    }

    open spec fn spec_current_scopes(&self) -> Seq<Seq<char>> {
        match self@.scopes {
            Some(sc) => sc,
            None => Seq::empty(),
        }
    }

    /// With no scopes demanded the held token is handed out as it is, even
    /// expired; a static token has no refresh path, so expiry enforcement
    /// belongs to the caller. With scope demands: unknown granted scopes
    /// first need one validation round trip, a missing scope is refused by
    /// name, and a provider that holds no token yet cannot take demands.
    open spec fn spec_token_step(&self, scopes: Seq<Seq<char>>, now: u64) -> TokenStepView {
        if scopes.len() == 0 {
            TokenStepView::Ready(Ok(self@.held_or_empty(now)))
        } else {
            match self@.scopes {
                Some(known) => if scopes_all_contained(scopes, known) {
                    TokenStepView::Ready(Ok(self@.held_or_empty(now)))
                } else {
                    TokenStepView::Ready(Err(missing_scopes_message(scopes)))
                },
                None => match self@.access_token {
                    Some(t) => TokenStepView::Fetch(
                        AuthRequestView::Validate {
                            client_id: self.client_id@,
                            access_token: t.data.access_token,
                        },
                    ),
                    None => TokenStepView::Ready(
                        Err(
                            "Auth provider has not been initialized with a token yet and is requesting scopes"@,
                        ),
                    ),
                },
            }
        }
    }

    open spec fn spec_after_token_step(&self, scopes: Seq<Seq<char>>, now: u64) -> StaticAuthProviderView {
        self@
    }

    /// Discovery caches the reported scopes and then answers the demand
    /// from them.
    open spec fn spec_resume(&self, scopes: Seq<Seq<char>>, response: AuthResponseView, now: u64) -> Result<
        AccessTokenView,
        Seq<char>,
    > {
        match response {
            AuthResponseView::Scopes(discovered) => if scopes_all_contained(scopes, discovered) {
                Ok(self@.held_or_empty(now))
            } else {
                Err(missing_scopes_message(scopes))
            },
            AuthResponseView::Token(_) => Err(
                "The auth provider was handed a response it did not ask for"@,
            ),
        }
    }

    open spec fn spec_after_resume(
        &self,
        scopes: Seq<Seq<char>>,
        response: AuthResponseView,
        now: u64,
    ) -> StaticAuthProviderView {
        match response {
            AuthResponseView::Scopes(discovered) => StaticAuthProviderView {
                scopes: Some(discovered),
                ..self@
            },
            AuthResponseView::Token(_) => self@,
        }
    }

    open spec fn spec_with_token(&self, token: AccessTokenView) -> StaticAuthProviderView {
        StaticAuthProviderView { access_token: Some(token), ..self@ }
    }

    fn client_id(&self) -> (r: &str) {
        self.client_id.as_str()
    }

    fn current_scopes(&self) -> (r: Vec<String>) {
        match &self.scopes {
            Some(sc) => {
                let r = sc.clone();
                proof {
                    assert(r.deep_view() =~= sc.deep_view());
                }
                r
            },
            None => {
                let r: Vec<String> = Vec::new();
                proof {
                    assert(r.deep_view() =~= Seq::<Seq<char>>::empty());
                }
                r
            },
        }
    }

    fn access_token(&mut self, now: u64) -> (r: TokenStep) {
        let no_scopes: Vec<String> = Vec::new();
        proof {
            assert(no_scopes.deep_view() =~= Seq::<Seq<char>>::empty());
        }
        self.access_token_with_scopes(&no_scopes, now)
    }

    fn access_token_with_scopes(&mut self, scopes: &Vec<String>, now: u64) -> (r: TokenStep) {
        if scopes.len() == 0 {
            TokenStep::Ready(Ok(self.held_or_empty(now)))
        } else {
            match &self.scopes {
                Some(known) => if all_scopes_contained(scopes, known) {
                    TokenStep::Ready(Ok(self.held_or_empty(now)))
                } else {
                    TokenStep::Ready(Err(missing_scopes_error(scopes)))
                },
                None => match &self.access_token {
                    Some(t) => TokenStep::Fetch(
                        AuthRequest::Validate {
                            client_id: self.client_id.clone(),
                            access_token: t.data.access_token.clone(),
                        },
                    ),
                    None => TokenStep::Ready(
                        Err(
                            AuthProviderError::new(
                                "Auth provider has not been initialized with a token yet and is requesting scopes",
                            ),
                        ),
                    ),
                },
            }
        }
    }

    fn resume_access_token(&mut self, scopes: &Vec<String>, response: AuthResponse, now: u64) -> (r:
        Result<AccessToken, AuthProviderError>) {
        match response {
            AuthResponse::Scopes(discovered) => {
                let granted = all_scopes_contained(scopes, &discovered);
                self.scopes = Some(discovered);
                if granted {
                    Ok(self.held_or_empty(now))
                } else {
                    Err(missing_scopes_error(scopes))
                }
            },
            AuthResponse::Token(_) => Err(
                AuthProviderError::new("The auth provider was handed a response it did not ask for"),
            ),
        }
    }

    fn set_access_token(&mut self, token: AccessToken) {
        self.access_token = Some(token);
    }
}

/// A static provider that holds no token yet refuses every scope demand:
/// there is nothing to validate the demand against.
pub proof fn lemma_uninitialized_scope_demand(
    p: StaticAuthProvider,
    scopes: Seq<Seq<char>>,
    now: u64,
)
    requires
        p@.access_token is None,
        p@.scopes is None,
        scopes.len() > 0,
    ensures
        p.spec_token_step(scopes, now) == TokenStepView::Ready(
            Err::<AccessTokenView, Seq<char>>(
                "Auth provider has not been initialized with a token yet and is requesting scopes"@,
            ),
        ),
{
}

/// Once the granted scopes are known, a demand that they cover is served
/// with the held token, and a demand they do not cover is refused with an
/// error that names every requested scope; the provider never attempts a
/// silent re-authorization.
pub proof fn lemma_known_scope_demand(p: StaticAuthProvider, scopes: Seq<Seq<char>>, now: u64)
    requires
        p@.scopes is Some,
        scopes.len() > 0,
    ensures
        scopes_all_contained(scopes, p@.scopes->0) ==> p.spec_token_step(scopes, now)
            == TokenStepView::Ready(Ok::<AccessTokenView, Seq<char>>(p@.held_or_empty(now))),
        !scopes_all_contained(scopes, p@.scopes->0) ==> p.spec_token_step(scopes, now)
            == TokenStepView::Ready(
            Err::<AccessTokenView, Seq<char>>(missing_scopes_message(scopes)),
        ),
        p.spec_after_token_step(scopes, now) == p@,
{
}

} // verus!
