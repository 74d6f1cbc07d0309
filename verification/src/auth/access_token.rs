use vstd::prelude::*;

use crate::util::clock::now_seconds;

verus! {

/// The fields of a grant response: the bearer credential, an optional
/// refresh credential, an optional time to live in seconds, and the
/// granted scopes.
#[derive(Debug)]
pub struct AccessTokenData {
    pub access_token: String,
    pub refresh_token: Option<String>,
    pub expires_in: Option<u64>,
    pub scope: Vec<String>,
}

/// Mathematical model of [`AccessTokenData`].
#[verifier::ext_equal]
pub ghost struct AccessTokenDataView {
    pub access_token: Seq<char>,
    pub refresh_token: Option<Seq<char>>,
    pub expires_in: Option<u64>,
    pub scope: Seq<Seq<char>>,
}

impl View for AccessTokenData {
    type V = AccessTokenDataView;

    open spec fn view(&self) -> AccessTokenDataView {
        AccessTokenDataView {
            access_token: self.access_token@,
            refresh_token: self.refresh_token.deep_view(),
            expires_in: self.expires_in,
            scope: self.scope.deep_view(),
        }
    }
}

impl AccessTokenDataView {
    /// The data of a token that carries an empty credential and nothing else.
    pub open spec fn empty() -> AccessTokenDataView {
        AccessTokenDataView {
            access_token: Seq::empty(),
            refresh_token: None,
            expires_in: None,
            scope: Seq::empty(),
        }
    }
}

/// A bearer credential together with the second (since the Unix epoch) at
/// which it was obtained. If a time to live is present, the token expires
/// that many seconds after it was obtained; without one it never expires.
#[derive(Debug)]
pub struct AccessToken {
    pub data: AccessTokenData,
    pub obtainment_date: u64,
}

/// Mathematical model of [`AccessToken`].
#[verifier::ext_equal]
pub ghost struct AccessTokenView {
    pub data: AccessTokenDataView,
    pub obtainment_date: u64,
}

impl View for AccessToken {
    type V = AccessTokenView;

    open spec fn view(&self) -> AccessTokenView {
        AccessTokenView { data: self.data@, obtainment_date: self.obtainment_date }
    }
}

impl DeepView for AccessToken {
    type V = AccessTokenView;

    open spec fn deep_view(&self) -> AccessTokenView {
        self@
    }
}

impl AccessTokenView {
    /// Whether the token is expired at second `now`: only a token with a
    /// time to live ever expires, and it does so strictly after the last
    /// second of its life.
    pub open spec fn expired_at(self, now: u64) -> bool {
        match self.data.expires_in {
            Some(ttl) => now > self.obtainment_date + ttl,
            None => false,
        }
    }

    /// The token that [`AccessToken::empty`] obtained at second `now` models.
    pub open spec fn empty_at(now: u64) -> AccessTokenView {
        AccessTokenView { data: AccessTokenDataView::empty(), obtainment_date: now }
    }
}

impl Clone for AccessTokenData {
    fn clone(&self) -> (r: Self)
        ensures
            r@ == self@,
    {
        let r = AccessTokenData {
            access_token: self.access_token.clone(),
            refresh_token: match &self.refresh_token {
                Some(s) => Some(s.clone()),
                None => None,
            },
            expires_in: self.expires_in,
            scope: self.scope.clone(),
        };
        proof {
            assert(r@.scope =~= self@.scope);
            assert(r@ =~= self@);
        }
        r
    }
}

impl Clone for AccessToken {
    fn clone(&self) -> (r: Self)
        ensures
            r@ == self@,
    {
        AccessToken { data: self.data.clone(), obtainment_date: self.obtainment_date }
    }
}

impl AccessToken {
    /// Wrap a freshly deserialized grant response; the obtainment date is
    /// the clock reading at the moment of construction.
    pub fn new(data: AccessTokenData) -> (r: Self)
        ensures
            r@.data == data@,
    {
        AccessToken { data, obtainment_date: now_seconds() }
    }

    /// A token with an empty credential, no refresh credential, no time to
    /// live and no scopes, obtained now.
    pub fn empty() -> (r: Self)
        ensures
            r@.data == AccessTokenDataView::empty(),
    {
        let r = AccessToken {
            data: AccessTokenData {
                access_token: String::new(),
                refresh_token: None,
                expires_in: None,
                scope: Vec::new(),
            },
            obtainment_date: now_seconds(),
        };
        proof {
            assert(r@.data =~= AccessTokenDataView::empty());
        }
        r
    }

    /// A never-expiring token around a pre-existing credential, with no
    /// scopes attached.
    pub fn with_access_token(access_token: String) -> (r: Self)
        ensures
            r@.data.access_token == access_token@,
            r@.data.refresh_token is None,
            r@.data.expires_in is None,
            r@.data.scope == Seq::<Seq<char>>::empty(),
    {
        let r = AccessToken {
            data: AccessTokenData {
                access_token,
                refresh_token: None,
                expires_in: None,
                scope: Vec::new(),
            },
            obtainment_date: now_seconds(),
        };
        proof {
            assert(r@.data.scope =~= Seq::<Seq<char>>::empty());
        }
        r
    }

    /// A never-expiring token around a pre-existing credential with the
    /// given granted scopes.
    pub fn with_access_token_and_scopes(access_token: String, scopes: Vec<String>) -> (r: Self)
        ensures
            r@.data.access_token == access_token@,
            r@.data.refresh_token is None,
            r@.data.expires_in is None,
            r@.data.scope == scopes.deep_view(),
    {
        AccessToken {
            data: AccessTokenData {
                access_token,
                refresh_token: None,
                expires_in: None,
                scope: scopes,
            },
            obtainment_date: now_seconds(),
        }
    }

    /// Wrap grant-response data obtained at a known second.
    pub fn with_obtainment_date(data: AccessTokenData, obtainment_date: u64) -> (r: Self)
        ensures
            r@ == (AccessTokenView { data: data@, obtainment_date }),
    {
        AccessToken { data, obtainment_date }
    }

    /// The bearer credential itself.
    pub fn access_token(&self) -> (r: &str)
        ensures
            r@ == self@.data.access_token,
    {
        self.data.access_token.as_str()
    }

    /// The refresh credential, if the grant carried one.
    pub fn refresh_token(&self) -> (r: Option<&str>)
        ensures
            r.deep_view() == self@.data.refresh_token,
    {
        match &self.data.refresh_token {
            Some(s) => Some(s.as_str()),
            None => None,
        }
    }

    /// The scopes granted to this token.
    pub fn scopes(&self) -> (r: &[String])
        ensures
            r.deep_view() == self@.data.scope,
    {
        self.data.scope.as_slice()
    }

    /// Whether the token is expired at second `now`.
    pub fn is_expired_at(&self, now: u64) -> (r: bool)
        ensures
            r == self@.expired_at(now),
    {
        match self.data.expires_in {
            Some(ttl) => now > self.obtainment_date && now - self.obtainment_date > ttl,
            None => false,
        }
    }

    /// Whether the token is expired at the present clock reading. A token
    /// without a time to live is never expired, whatever the clock says.
    pub fn is_expired(&self) -> (r: bool)
        ensures
            self@.data.expires_in is None ==> !r,
    {
        let now = now_seconds();
        self.is_expired_at(now)
    }
}

/// A token with no time to live never expires, however much time has passed.
pub proof fn lemma_no_ttl_never_expires(token: AccessTokenView, now: u64)
    requires
        token.data.expires_in is None,
    ensures
        !token.expired_at(now),
{
}

/// A token with a time to live is alive through the last second of its
/// life and expired from the first second after it.
pub proof fn lemma_ttl_expiry_boundary(token: AccessTokenView, ttl: u64, now: u64)
    requires
        token.data.expires_in == Some(ttl),
    ensures
        now <= token.obtainment_date + ttl ==> !token.expired_at(now),
        now > token.obtainment_date + ttl ==> token.expired_at(now),
{
}

} // verus!
