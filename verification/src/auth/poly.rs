use vstd::prelude::*;

use crate::auth::access_token::{AccessToken, AccessTokenView};
use crate::auth::client_credentials::{
    ClientCredentialsAuthProvider, ClientCredentialsAuthProviderView,
};
use crate::auth::provider::{
    AuthProvider, AuthProviderError, AuthResponse, AuthResponseView, TokenStep, TokenStepView,
};
use crate::auth::stat::{StaticAuthProvider, StaticAuthProviderView};
use vstd::std_specs::convert::FromSpec;

verus! {

/// A provider with its concrete type erased: the closed set of strategies
/// behind one dispatch point, so that a client, or code across an
/// ownership boundary, can drive any of them without naming one.
pub enum CAuthProvider {
    Static(StaticAuthProvider),
    ClientCredentials(ClientCredentialsAuthProvider),
}

/// Mathematical model of [`CAuthProvider`].
#[verifier::ext_equal]
pub ghost enum CAuthProviderView {
    Static(StaticAuthProviderView),
    ClientCredentials(ClientCredentialsAuthProviderView),
}

impl View for CAuthProvider {
    type V = CAuthProviderView;

    open spec fn view(&self) -> CAuthProviderView {
        match self {
            CAuthProvider::Static(p) => CAuthProviderView::Static(p@),
            CAuthProvider::ClientCredentials(p) => CAuthProviderView::ClientCredentials(p@),
        }
    }
}

impl From<StaticAuthProvider> for CAuthProvider {
    fn from(provider: StaticAuthProvider) -> (r: CAuthProvider) {
        CAuthProvider::Static(provider)
    }
}

impl vstd::std_specs::convert::FromSpecImpl<StaticAuthProvider> for CAuthProvider {
    open spec fn obeys_from_spec() -> bool {
        true
    }

    open spec fn from_spec(provider: StaticAuthProvider) -> CAuthProvider {
        CAuthProvider::Static(provider)
    }
}

impl From<ClientCredentialsAuthProvider> for CAuthProvider {
    fn from(provider: ClientCredentialsAuthProvider) -> (r: CAuthProvider) {
        CAuthProvider::ClientCredentials(provider)
    }
}

impl vstd::std_specs::convert::FromSpecImpl<ClientCredentialsAuthProvider> for CAuthProvider {
    open spec fn obeys_from_spec() -> bool {
        true
    }

    open spec fn from_spec(provider: ClientCredentialsAuthProvider) -> CAuthProvider {
        CAuthProvider::ClientCredentials(provider)
    }
}

impl CAuthProvider {
    /// Erase a concrete provider's type.
    pub fn for_auth_provider<A>(provider: A) -> (r: CAuthProvider) where CAuthProvider: From<A>
        ensures
            <CAuthProvider as FromSpec<A>>::obeys_from_spec() ==> r == CAuthProvider::from_spec(provider),
    {
        CAuthProvider::from(provider)
    }
}

impl AuthProvider for CAuthProvider {
    open spec fn spec_client_id(&self) -> Seq<char> {
        match self {
            CAuthProvider::Static(p) => p.spec_client_id(),
            CAuthProvider::ClientCredentials(p) => p.spec_client_id(),
        }
    }

    open spec fn spec_current_scopes(&self) -> Seq<Seq<char>> {
        match self {
            CAuthProvider::Static(p) => p.spec_current_scopes(),
            CAuthProvider::ClientCredentials(p) => p.spec_current_scopes(),
        }
    }

    open spec fn spec_token_step(&self, scopes: Seq<Seq<char>>, now: u64) -> TokenStepView {
        match self {
            CAuthProvider::Static(p) => p.spec_token_step(scopes, now),
            CAuthProvider::ClientCredentials(p) => p.spec_token_step(scopes, now),
        }
    }

    open spec fn spec_after_token_step(&self, scopes: Seq<Seq<char>>, now: u64) -> CAuthProviderView {
        match self {
            CAuthProvider::Static(p) => CAuthProviderView::Static(
                p.spec_after_token_step(scopes, now),
            ),
            CAuthProvider::ClientCredentials(p) => CAuthProviderView::ClientCredentials(
                p.spec_after_token_step(scopes, now),
            ),
        }
    }

    open spec fn spec_resume(&self, scopes: Seq<Seq<char>>, response: AuthResponseView, now: u64) -> Result<
        AccessTokenView,
        Seq<char>,
    > {
        match self {
            CAuthProvider::Static(p) => p.spec_resume(scopes, response, now),
            CAuthProvider::ClientCredentials(p) => p.spec_resume(scopes, response, now),
        }
    }

    open spec fn spec_after_resume(
        &self,
        scopes: Seq<Seq<char>>,
        response: AuthResponseView,
        now: u64,
    ) -> CAuthProviderView {
        match self {
            CAuthProvider::Static(p) => CAuthProviderView::Static(
                p.spec_after_resume(scopes, response, now),
            ),
            CAuthProvider::ClientCredentials(p) => CAuthProviderView::ClientCredentials(
                p.spec_after_resume(scopes, response, now),
            ),
        }
    }

    open spec fn spec_with_token(&self, token: AccessTokenView) -> CAuthProviderView {
        match self {
            CAuthProvider::Static(p) => CAuthProviderView::Static(p.spec_with_token(token)),
            CAuthProvider::ClientCredentials(p) => CAuthProviderView::ClientCredentials(
                p.spec_with_token(token),
            ),
        }
    }

    fn client_id(&self) -> (r: &str) {
        match self {
            CAuthProvider::Static(p) => p.client_id(),
            CAuthProvider::ClientCredentials(p) => p.client_id(),
        }
    }

    fn current_scopes(&self) -> (r: Vec<String>) {
        match self {
            CAuthProvider::Static(p) => p.current_scopes(),
            CAuthProvider::ClientCredentials(p) => p.current_scopes(),
        }
    }

    fn access_token(&mut self, now: u64) -> (r: TokenStep) {
        match self {
            CAuthProvider::Static(p) => p.access_token(now),
            CAuthProvider::ClientCredentials(p) => p.access_token(now),
        }
    }

    fn access_token_with_scopes(&mut self, scopes: &Vec<String>, now: u64) -> (r: TokenStep) {
        match self {
            CAuthProvider::Static(p) => p.access_token_with_scopes(scopes, now),
            CAuthProvider::ClientCredentials(p) => p.access_token_with_scopes(scopes, now),
        }
    }

    fn resume_access_token(&mut self, scopes: &Vec<String>, response: AuthResponse, now: u64) -> (r:
        Result<AccessToken, AuthProviderError>) {
        match self {
            CAuthProvider::Static(p) => p.resume_access_token(scopes, response, now),
            CAuthProvider::ClientCredentials(p) => p.resume_access_token(scopes, response, now),
        }
    }

    fn set_access_token(&mut self, token: AccessToken) {
        match self {
            CAuthProvider::Static(p) => p.set_access_token(token),
            CAuthProvider::ClientCredentials(p) => p.set_access_token(token),
        }
    }
}

/// Dispatch through the erased provider is transparent: each operation of
/// the wrapper answers exactly as a direct invocation on the wrapped
/// provider would.
pub proof fn lemma_erasure_transparent_static(
    p: StaticAuthProvider,
    scopes: Seq<Seq<char>>,
    now: u64,
)
    ensures
        (CAuthProvider::Static(p)).spec_client_id() == p.spec_client_id(),
        (CAuthProvider::Static(p)).spec_current_scopes() == p.spec_current_scopes(),
        (CAuthProvider::Static(p)).spec_token_step(scopes, now) == p.spec_token_step(scopes, now),
{
}

/// As [`lemma_erasure_transparent_static`], for the client-credentials
/// strategy.
pub proof fn lemma_erasure_transparent_client_credentials(
    p: ClientCredentialsAuthProvider,
    scopes: Seq<Seq<char>>,
    now: u64,
)
    ensures
        (CAuthProvider::ClientCredentials(p)).spec_client_id() == p.spec_client_id(),
        (CAuthProvider::ClientCredentials(p)).spec_current_scopes() == p.spec_current_scopes(),
        (CAuthProvider::ClientCredentials(p)).spec_token_step(scopes, now) == p.spec_token_step(
            scopes,
            now,
        ),
{
}

} // verus!
