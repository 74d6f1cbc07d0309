use vstd::prelude::*;

use crate::auth::access_token::{AccessToken, AccessTokenView};
use crate::auth::provider::{
    AuthProvider, AuthProviderError, AuthRequest, AuthRequestView, AuthResponse, AuthResponseView,
    RefreshableAuthProvider, TokenStep, TokenStepView,
};

verus! {

/// The client-credentials strategy: a client identifier and secret that
/// can be exchanged for a token at any time. The token is cached and
/// replaced by a fresh grant once expired; the grant type is inherently
/// scopeless.
pub struct ClientCredentialsAuthProvider {
    pub client_id: String,
    pub client_secret: String,
    pub current_token: Option<AccessToken>,
}

/// Mathematical model of [`ClientCredentialsAuthProvider`].
#[verifier::ext_equal]
pub ghost struct ClientCredentialsAuthProviderView {
    pub client_id: Seq<char>,
    pub client_secret: Seq<char>,
    pub current_token: Option<AccessTokenView>,
}

impl View for ClientCredentialsAuthProvider {
    type V = ClientCredentialsAuthProviderView;

    open spec fn view(&self) -> ClientCredentialsAuthProviderView {
        ClientCredentialsAuthProviderView {
            client_id: self.client_id@,
            client_secret: self.client_secret@,
            current_token: self.current_token.deep_view(),
        }
    }
}

impl ClientCredentialsAuthProvider {
    /// A provider around a client identifier and secret; no token is held
    /// until the first acquisition.
    pub fn new(client_id: String, client_secret: String) -> (r: ClientCredentialsAuthProvider)
        ensures
            r@ == (ClientCredentialsAuthProviderView {
                client_id: client_id@,
                client_secret: client_secret@,
                current_token: None,
            }),
    {
        ClientCredentialsAuthProvider { client_id, client_secret, current_token: None }
    }
}

impl AuthProvider for ClientCredentialsAuthProvider {
    open spec fn spec_client_id(&self) -> Seq<char> {
        self.client_id@
    }

    /// This grant type never carries scopes.
    open spec fn spec_current_scopes(&self) -> Seq<Seq<char>> {
        Seq::empty()
    }

    /// Any scope demand is refused outright. Without demands, a cached
    /// token that is not expired at `now` is served as it is; otherwise a
    /// grant exchange is asked for.
    open spec fn spec_token_step(&self, scopes: Seq<Seq<char>>, now: u64) -> TokenStepView {
        if scopes.len() > 0 {
            TokenStepView::Ready(Err("The client credentials flow does not support scopes"@))
        } else {
            let grant = AuthRequestView::AppAccessGrant {
                client_id: self.client_id@,
                client_secret: self.client_secret@,
            };
            match self@.current_token {
                Some(t) => if t.expired_at(now) {
                    TokenStepView::Fetch(grant)
                } else {
                    TokenStepView::Ready(Ok(t))
                },
                None => TokenStepView::Fetch(grant),
            }
        }
    }

    open spec fn spec_after_token_step(
        &self,
        scopes: Seq<Seq<char>>,
        now: u64,
    ) -> ClientCredentialsAuthProviderView {
        self@
    }

    /// A grant's token replaces the cache wholesale and is handed out.
    open spec fn spec_resume(&self, scopes: Seq<Seq<char>>, response: AuthResponseView, now: u64) -> Result<
        AccessTokenView,
        Seq<char>,
    > {
        match response {
            AuthResponseView::Token(t) => Ok(t),
            AuthResponseView::Scopes(_) => Err(
                "The auth provider was handed a response it did not ask for"@,
            ),
        }
    }

    open spec fn spec_after_resume(
        &self,
        scopes: Seq<Seq<char>>,
        response: AuthResponseView,
        now: u64,
    ) -> ClientCredentialsAuthProviderView {
        match response {
            AuthResponseView::Token(t) => self.spec_with_token(t),
            AuthResponseView::Scopes(_) => self@,
        }
    }

    open spec fn spec_with_token(&self, token: AccessTokenView) -> ClientCredentialsAuthProviderView {
        ClientCredentialsAuthProviderView { current_token: Some(token), ..self@ }
    }

    fn client_id(&self) -> (r: &str) {
        self.client_id.as_str()
    }

    fn current_scopes(&self) -> (r: Vec<String>) {
        let r: Vec<String> = Vec::new();
        proof {
            assert(r.deep_view() =~= Seq::<Seq<char>>::empty());
        }
        r
    }

    fn access_token(&mut self, now: u64) -> (r: TokenStep) {
        match &self.current_token {
            Some(t) => if t.is_expired_at(now) {
                TokenStep::Fetch(self.refresh_request())
            } else {
                TokenStep::Ready(Ok(t.clone()))
            },
            None => TokenStep::Fetch(self.refresh_request()),
        }
    }

    fn access_token_with_scopes(&mut self, scopes: &Vec<String>, now: u64) -> (r: TokenStep) {
        if scopes.len() > 0 {
            TokenStep::Ready(
                Err(AuthProviderError::new("The client credentials flow does not support scopes")),
            )
        } else {
            self.access_token(now)
        }
    }

    fn resume_access_token(&mut self, scopes: &Vec<String>, response: AuthResponse, now: u64) -> (r:
        Result<AccessToken, AuthProviderError>) {
        match response {
            AuthResponse::Token(t) => Ok(self.complete_refresh(t)),
            AuthResponse::Scopes(_) => Err(
                AuthProviderError::new("The auth provider was handed a response it did not ask for"),
            ),
        }
    }

    fn set_access_token(&mut self, token: AccessToken) {
        self.current_token = Some(token);
    }
}

impl RefreshableAuthProvider for ClientCredentialsAuthProvider {
    open spec fn spec_refresh_request(&self) -> AuthRequestView {
        AuthRequestView::AppAccessGrant {
            client_id: self.client_id@,
            client_secret: self.client_secret@,
        }
    }

    fn refresh_request(&self) -> (r: AuthRequest) {
        AuthRequest::AppAccessGrant {
            client_id: self.client_id.clone(),
            client_secret: self.client_secret.clone(),
        }
    }

    fn complete_refresh(&mut self, token: AccessToken) -> (r: AccessToken) {
        let copy = token.clone();
        self.current_token = Some(token);
        copy
    }
}

/// Requesting any scope of the client-credentials strategy fails, whatever
/// the provider's state: this grant type is inherently scopeless.
pub proof fn lemma_scopes_always_refused(
    p: ClientCredentialsAuthProvider,
    scopes: Seq<Seq<char>>,
    now: u64,
)
    requires
        scopes.len() > 0,
    ensures
        p.spec_token_step(scopes, now) == TokenStepView::Ready(
            Err::<AccessTokenView, Seq<char>>(
                "The client credentials flow does not support scopes"@,
            ),
        ),
        p.spec_after_token_step(scopes, now) == p@,
{
}

/// The token cache of the client-credentials strategy: a cached token that
/// is not expired is served as it is and the state stands, so a second
/// acquisition with no expiry elapsed serves the same token without a
/// second grant exchange. An absent or expired cache asks for exactly one
/// grant exchange; the token it produces is handed out and replaces the
/// cache wholesale.
pub proof fn lemma_token_cache(
    p: ClientCredentialsAuthProvider,
    fresh: AccessTokenView,
    now: u64,
)
    ensures
        p@.current_token matches Some(t) ==> (!t.expired_at(now) ==> p.spec_token_step(
            Seq::empty(),
            now,
        ) == TokenStepView::Ready(Ok::<AccessTokenView, Seq<char>>(t))),
        p@.current_token matches Some(t) ==> (t.expired_at(now) ==> p.spec_token_step(
            Seq::empty(),
            now,
        ) == TokenStepView::Fetch(
            AuthRequestView::AppAccessGrant {
                client_id: p@.client_id,
                client_secret: p@.client_secret,
            },
        )),
        p@.current_token is None ==> p.spec_token_step(Seq::empty(), now) == TokenStepView::Fetch(
            AuthRequestView::AppAccessGrant {
                client_id: p@.client_id,
                client_secret: p@.client_secret,
            },
        ),
        p.spec_after_token_step(Seq::empty(), now) == p@,
        p.spec_resume(Seq::empty(), AuthResponseView::Token(fresh), now) == Ok::<
            AccessTokenView,
            Seq<char>,
        >(fresh),
        p.spec_after_resume(Seq::empty(), AuthResponseView::Token(fresh), now)
            == (ClientCredentialsAuthProviderView { current_token: Some(fresh), ..p@ }),
{
}

} // verus!
