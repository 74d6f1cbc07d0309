use vstd::prelude::*;

use crate::auth::access_token::{AccessToken, AccessTokenView};
use crate::auth::poly::{CAuthProvider, CAuthProviderView};
use crate::auth::provider::{
    AuthProvider, AuthProviderError, AuthResponse, AuthResponseView, TokenStep, TokenStepView,
};
use vstd::std_specs::convert::FromSpec;

verus! {

/// Exclusive ownership of one boxed, type-erased provider. Every
/// operation reaches the wrapped provider only through the erased
/// dispatch of [`CAuthProvider`]; destruction frees the box exactly once.
pub struct OwnedAuthProvider {
    pub inner: Box<CAuthProvider>,
}

impl View for OwnedAuthProvider {
    type V = CAuthProviderView;

    open spec fn view(&self) -> CAuthProviderView {
        self.inner@
    }
}

impl OwnedAuthProvider {
    /// Box a provider and take exclusive ownership of it.
    pub fn new<A>(provider: A) -> (r: OwnedAuthProvider) where CAuthProvider: From<A>
        ensures
            <CAuthProvider as FromSpec<A>>::obeys_from_spec() ==> r@ == CAuthProvider::from_spec(provider)@,
    {
        OwnedAuthProvider { inner: Box::new(CAuthProvider::for_auth_provider(provider)) }
    }
}

impl AuthProvider for OwnedAuthProvider {
    open spec fn spec_client_id(&self) -> Seq<char> {
        self.inner.spec_client_id()
    }

    open spec fn spec_current_scopes(&self) -> Seq<Seq<char>> {
        self.inner.spec_current_scopes()
    }

    open spec fn spec_token_step(&self, scopes: Seq<Seq<char>>, now: u64) -> TokenStepView {
        self.inner.spec_token_step(scopes, now)
    }

    open spec fn spec_after_token_step(&self, scopes: Seq<Seq<char>>, now: u64) -> CAuthProviderView {
        self.inner.spec_after_token_step(scopes, now)
    }

    open spec fn spec_resume(&self, scopes: Seq<Seq<char>>, response: AuthResponseView, now: u64) -> Result<
        AccessTokenView,
        Seq<char>,
    > {
        self.inner.spec_resume(scopes, response, now)
    }

    open spec fn spec_after_resume(
        &self,
        scopes: Seq<Seq<char>>,
        response: AuthResponseView,
        now: u64,
    ) -> CAuthProviderView {
        self.inner.spec_after_resume(scopes, response, now)
    }

    open spec fn spec_with_token(&self, token: AccessTokenView) -> CAuthProviderView {
        self.inner.spec_with_token(token)
    }

    fn client_id(&self) -> (r: &str) {
        self.inner.client_id()
    }

    fn current_scopes(&self) -> (r: Vec<String>) {
        self.inner.current_scopes()
    }

    fn access_token(&mut self, now: u64) -> (r: TokenStep) {
        self.inner.access_token(now)
    }

    fn access_token_with_scopes(&mut self, scopes: &Vec<String>, now: u64) -> (r: TokenStep) {
        self.inner.access_token_with_scopes(scopes, now)
    }

    fn resume_access_token(&mut self, scopes: &Vec<String>, response: AuthResponse, now: u64) -> (r:
        Result<AccessToken, AuthProviderError>) {
        self.inner.resume_access_token(scopes, response, now)
    }

    fn set_access_token(&mut self, token: AccessToken) {
        self.inner.set_access_token(token)
    }
}

} // verus!
