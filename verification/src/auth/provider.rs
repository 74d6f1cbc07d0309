use vstd::prelude::*;

use crate::auth::access_token::{AccessToken, AccessTokenView};

verus! {

/// A failure of an auth provider: no token to hand out, a scope that
/// cannot be granted, or a grant type that does not take scopes.
#[derive(Debug)]
pub struct AuthProviderError {
    pub description: String,
}

impl AuthProviderError {
    /// An error with the given description.
    pub fn new(description: &str) -> (r: Self)
        ensures
            r.description@ == description@,
    {
        AuthProviderError { description: description.to_owned() }
    }

    /// The description of what went wrong.
    pub fn description(&self) -> (r: &str)
        ensures
            r@ == self.description@,
    {
        self.description.as_str()
    }
}

/// The one round trip a provider may ask its driver to perform before a
/// token can be handed out: validating the held token against the
/// authorization server, or exchanging client credentials for a new token.
pub enum AuthRequest {
    Validate { client_id: String, access_token: String },
    AppAccessGrant { client_id: String, client_secret: String },
}

/// Mathematical model of [`AuthRequest`].
#[verifier::ext_equal]
pub ghost enum AuthRequestView {
    Validate { client_id: Seq<char>, access_token: Seq<char> },
    AppAccessGrant { client_id: Seq<char>, client_secret: Seq<char> },
}

impl View for AuthRequest {
    type V = AuthRequestView;

    open spec fn view(&self) -> AuthRequestView {
        match self {
            AuthRequest::Validate { client_id, access_token } => AuthRequestView::Validate {
                client_id: client_id@,
                access_token: access_token@,
            },
            AuthRequest::AppAccessGrant { client_id, client_secret } => AuthRequestView::AppAccessGrant {
                client_id: client_id@,
                client_secret: client_secret@,
            },
        }
    }
}

/// What the driver brings back from an [`AuthRequest`]: the scopes the
/// validation endpoint reported, or the token a grant produced.
pub enum AuthResponse {
    Scopes(Vec<String>),
    Token(AccessToken),
}

/// Mathematical model of [`AuthResponse`].
#[verifier::ext_equal]
pub ghost enum AuthResponseView {
    Scopes(Seq<Seq<char>>),
    Token(AccessTokenView),
}

impl View for AuthResponse {
    type V = AuthResponseView;

    open spec fn view(&self) -> AuthResponseView {
        match self {
            AuthResponse::Scopes(scopes) => AuthResponseView::Scopes(scopes.deep_view()),
            AuthResponse::Token(token) => AuthResponseView::Token(token@),
        }
    }
}

/// One step of a token acquisition: either the outcome is already known,
/// or a round trip is needed and the provider names it.
pub enum TokenStep {
    Ready(Result<AccessToken, AuthProviderError>),
    Fetch(AuthRequest),
}

/// Mathematical model of [`TokenStep`]; an error is modelled by its
/// description.
#[verifier::ext_equal]
pub ghost enum TokenStepView {
    Ready(Result<AccessTokenView, Seq<char>>),
    Fetch(AuthRequestView),
}

impl View for TokenStep {
    type V = TokenStepView;

    open spec fn view(&self) -> TokenStepView {
        match self {
            TokenStep::Ready(Ok(token)) => TokenStepView::Ready(Ok(token@)),
            TokenStep::Ready(Err(e)) => TokenStepView::Ready(Err(e.description@)),
            TokenStep::Fetch(request) => TokenStepView::Fetch(request@),
        }
    }
}

/// Every requested scope occurs among the known ones.
pub open spec fn scopes_all_contained(requested: Seq<Seq<char>>, known: Seq<Seq<char>>) -> bool {
    forall|i: int| 0 <= i < requested.len() ==> known.contains(requested[i])
}

/// The parts joined by the separator, in order.
pub open spec fn spec_join(parts: Seq<Seq<char>>, sep: Seq<char>) -> Seq<char>
    decreases parts.len(),
{
    if parts.len() == 0 {
        Seq::empty()
    } else if parts.len() == 1 {
        parts[0]
    } else {
        spec_join(parts.drop_last(), sep) + sep + parts.last()
    }
}

/// The message of the error raised when a token lacks requested scopes.
pub open spec fn missing_scopes_message(requested: Seq<Seq<char>>) -> Seq<char> {
    "This token does not have the requested scopes ("@ + spec_join(requested, ", "@)
        + ") and can not be upgraded"@
}

/// Whether `scope` occurs in `known`.
pub fn contains_scope(known: &Vec<String>, scope: &String) -> (r: bool)
    ensures
        r == known.deep_view().contains(scope@),
{
    let n = known.len();
    let mut i: usize = 0;
    loop
        invariant
            n == known.len(),
            0 <= i <= n,
            forall|j: int| 0 <= j < i ==> known.deep_view()[j] != scope@,
        ensures
            (i < n && known.deep_view()[i as int] == scope@) || (i == n && !known.deep_view().contains(
                scope@,
            )),
        decreases n - i,
    {
        if i < n {
            if known[i].eq(scope) {
                proof {
                    assert(known.deep_view()[i as int] == scope@);
                }
                break;
            }
            i = i + 1;
        } else {
            proof {
                assert forall|j: int| 0 <= j < known.deep_view().len() implies known.deep_view()[j]
                    != scope@ by {}
            }
            break;
        }
    }
    i < n
}

/// Whether every requested scope occurs among the known ones.
pub fn all_scopes_contained(requested: &Vec<String>, known: &Vec<String>) -> (r: bool)
    ensures
        r == scopes_all_contained(requested.deep_view(), known.deep_view()),
{
    let n = requested.len();
    let mut i: usize = 0;
    loop
        invariant
            n == requested.len(),
            0 <= i <= n,
            forall|j: int| 0 <= j < i ==> known.deep_view().contains(requested.deep_view()[j]),
        ensures
            (i == n && scopes_all_contained(requested.deep_view(), known.deep_view())) || (i < n
                && !known.deep_view().contains(requested.deep_view()[i as int])),
        decreases n - i,
    {
        if i < n {
            if !contains_scope(known, &requested[i]) {
                break;
            }
            i = i + 1;
        } else {
            break;
        }
    }
    i == requested.len()
}

/// The parts joined by the separator, in order.
pub fn join_strings(parts: &Vec<String>, sep: &str) -> (r: String)
    ensures
        r@ == spec_join(parts.deep_view(), sep@),
{
    let n = parts.len();
    let mut r = String::new();
    let mut i: usize = 0;
    while i < n
        invariant
            n == parts.len(),
            0 <= i <= n,
            r@ == spec_join(parts.deep_view().take(i as int), sep@),
        decreases n - i,
    {
        if i > 0 {
            r.append(sep);
        }
        r.append(parts[i].as_str());
        i = i + 1;
        proof {
            let dv = parts.deep_view();
            let t = dv.take(i as int);
            assert(t.drop_last() =~= dv.take(i - 1));
            assert(t.last() == dv[i - 1]);
            if i == 1 {
                assert(r@ == spec_join(t, sep@));
            }
        }
    }
    proof {
        assert(parts.deep_view().take(n as int) =~= parts.deep_view());
    }
    r
}

/// The error raised when the held token lacks requested scopes; it names
/// every requested scope.
pub fn missing_scopes_error(requested: &Vec<String>) -> (r: AuthProviderError)
    ensures
        r.description@ == missing_scopes_message(requested.deep_view()),
{
    let mut description = "This token does not have the requested scopes (".to_owned();
    let joined = join_strings(requested, ", ");
    description.append(joined.as_str());
    description.append(") and can not be upgraded");
    AuthProviderError { description }
}

/// The capability every credential strategy offers: a stable client
/// identifier, the best-known granted scopes, a step protocol that yields
/// a token (possibly after one named round trip), and wholesale token
/// replacement. The step functions take the present second so that expiry
/// is a function of their arguments.
pub trait AuthProvider: Sized + View {
    /// The provider's stable client identifier.
    spec fn spec_client_id(&self) -> Seq<char>;

    /// The provider's best-known snapshot of its granted scopes.
    spec fn spec_current_scopes(&self) -> Seq<Seq<char>>;

    /// What one acquisition step yields for the requested scopes at second
    /// `now`.
    spec fn spec_token_step(&self, scopes: Seq<Seq<char>>, now: u64) -> TokenStepView;

    /// The provider's state after that step.
    spec fn spec_after_token_step(&self, scopes: Seq<Seq<char>>, now: u64) -> Self::V;

    /// What resuming with the driver's response yields.
    spec fn spec_resume(&self, scopes: Seq<Seq<char>>, response: AuthResponseView, now: u64) -> Result<
        AccessTokenView,
        Seq<char>,
    >;

    /// The provider's state after resuming.
    spec fn spec_after_resume(
        &self,
        scopes: Seq<Seq<char>>,
        response: AuthResponseView,
        now: u64,
    ) -> Self::V;

    /// The provider's state once a token has been put in place.
    spec fn spec_with_token(&self, token: AccessTokenView) -> Self::V;

    /// The client identifier; never fails.
    fn client_id(&self) -> (r: &str)
        ensures
            r@ == self.spec_client_id(),
    ;

    /// The best-known granted scopes; empty if never discovered.
    fn current_scopes(&self) -> (r: Vec<String>)
        ensures
            r.deep_view() == self.spec_current_scopes(),
    ;

    /// Begin acquiring a token with no scope demands.
    fn access_token(&mut self, now: u64) -> (r: TokenStep)
        ensures
            r@ == old(self).spec_token_step(Seq::empty(), now),
            final(self)@ == old(self).spec_after_token_step(Seq::empty(), now),
    ;

    /// Begin acquiring a token that must carry every requested scope.
    fn access_token_with_scopes(&mut self, scopes: &Vec<String>, now: u64) -> (r: TokenStep)
        ensures
            r@ == old(self).spec_token_step(scopes.deep_view(), now),
            final(self)@ == old(self).spec_after_token_step(scopes.deep_view(), now),
    ;

    /// Finish an acquisition whose step asked for a round trip, handing
    /// in what the driver brought back.
    fn resume_access_token(&mut self, scopes: &Vec<String>, response: AuthResponse, now: u64) -> (r:
        Result<AccessToken, AuthProviderError>)
        ensures
            (match r {
                Ok(token) => Ok(token@),
                Err(e) => Err(e.description@),
            }) == old(self).spec_resume(scopes.deep_view(), response@, now),
            final(self)@ == old(self).spec_after_resume(scopes.deep_view(), response@, now),
    ;

    /// Replace the held token unconditionally; nothing is validated.
    fn set_access_token(&mut self, token: AccessToken)
        ensures
            final(self)@ == old(self).spec_with_token(token@),
    ;
}

/// A provider that can obtain a fresh token on its own: the grant exchange
/// is one round trip, named by `refresh_request` and finished by
/// `complete_refresh`.
pub trait RefreshableAuthProvider: AuthProvider {
    /// The round trip a refresh performs.
    spec fn spec_refresh_request(&self) -> AuthRequestView;

    /// Name the round trip that exchanges this provider's credentials for
    /// a fresh token.
    fn refresh_request(&self) -> (r: AuthRequest)
        ensures
            r@ == self.spec_refresh_request(),
    ;

    /// Put the token the exchange produced in place and hand it back.
    fn complete_refresh(&mut self, token: AccessToken) -> (r: AccessToken)
        ensures
            final(self)@ == old(self).spec_with_token(token@),
            r@ == token@,
    ;
}

} // verus!
