use vstd::prelude::*;

verus! {

/// The URL namespace an API invocation targets: the legacy namespace, the
/// current namespace, the authorization server, or a verbatim absolute URL.
#[derive(Clone, Copy, Debug, PartialEq, Eq, Structural)]
pub enum TwitchApiCallType {
    Kraken,
    Helix,
    Auth,
    Custom,
}

/// The HTTP method of an API invocation, held as a plain value so that a
/// descriptor can be reasoned about; the transport maps it to its own
/// method type when the request is issued.
#[derive(Clone, Copy, Debug, PartialEq, Eq, Structural)]
pub enum HttpMethod {
    Get,
    Post,
    Put,
    Patch,
    Delete,
    Head,
    Options,
}

/// The host that serves a namespace. The custom namespace carries its host
/// inside its verbatim URL and has none of its own.
pub open spec fn spec_host(t: TwitchApiCallType) -> Seq<char> {
    match t {
        TwitchApiCallType::Auth => "id.twitch.tv"@,
        _ => "api.twitch.tv"@,
    }
}

/// The path prefix a namespace puts before the relative path.
pub open spec fn spec_path_prefix(t: TwitchApiCallType) -> Seq<char> {
    match t {
        TwitchApiCallType::Kraken => "/kraken/"@,
        TwitchApiCallType::Helix => "/helix/"@,
        TwitchApiCallType::Auth => "/oauth2/"@,
        TwitchApiCallType::Custom => Seq::empty(),
    }
}

/// `s` with every leading `/` removed.
pub open spec fn strip_leading_slashes(s: Seq<char>) -> Seq<char>
    decreases s.len(),
{
    if s.len() > 0 && s[0] == '/' {
        strip_leading_slashes(s.drop_first())
    } else {
        s
    }
}

proof fn lemma_strip_is_suffix(s: Seq<char>, i: int)
    requires
        0 <= i <= s.len(),
        forall|j: int| 0 <= j < i ==> s[j] == '/',
        i < s.len() ==> s[i] != '/',
    ensures
        strip_leading_slashes(s) == s.subrange(i, s.len() as int),
    decreases i,
{
    if i == 0 {
        assert(s =~= s.subrange(0, s.len() as int));
    } else {
        let t = s.drop_first();
        assert(forall|j: int| 0 <= j < i - 1 ==> t[j] == '/');
        lemma_strip_is_suffix(t, i - 1);
        assert(t.subrange(i - 1, t.len() as int) =~= s.subrange(i, s.len() as int));
    }
}

/// `path` with every leading `/` removed.
pub fn stripped_path(path: &str) -> (r: &str)
    ensures
        r@ == strip_leading_slashes(path@),
{
    let n = path.unicode_len();
    let mut i: usize = 0;
    loop
        invariant
            n == path@.len(),
            0 <= i <= n,
            forall|j: int| 0 <= j < i ==> path@[j] == '/',
        ensures
            0 <= i <= n,
            forall|j: int| 0 <= j < i ==> path@[j] == '/',
            i < n ==> path@[i as int] != '/',
        decreases n - i,
    {
        if i < n {
            let c = path.get_char(i);
            if c == '/' {
                i = i + 1;
            } else {
                break;
            }
        } else {
            break;
        }
    }
    proof {
        lemma_strip_is_suffix(path@, i as int);
    }
    path.substring_char(i, n)
}

/// What the final query-carrying URL is, as `url::Url::parse_with_params`
/// renders it from a base URL and the query pairs; `None` where the base is
/// no absolute URL.
pub uninterp spec fn url_with_params(base: Seq<char>, params: Seq<(Seq<char>, Seq<char>)>) -> Option<
    Seq<char>,
>;

/// Relies on url::Url::parse_with_params and url::Url::as_str: the base URL
/// with each pair appended to its query, form-encoded, serialized back to a
/// string; `None` where the base does not parse as an absolute URL. The
/// outcome is a function of the arguments alone.
#[verifier::external_body]
fn parse_with_params(base: &str, params: &Vec<(String, String)>) -> (r: Option<String>)
    ensures
        r is Some <==> url_with_params(base@, params.deep_view()) is Some,
        r is Some ==> r->0@ == url_with_params(base@, params.deep_view())->0,
{
    match url::Url::parse_with_params(base, params) {
        Ok(u) => Some(u.as_str().to_owned()),
        Err(_) => None,
    }
}

/// A builder-validated description of one API invocation: target
/// namespace, relative path, method, query parameters in insertion order,
/// optional typed body, and the scope the invocation requires, if any.
pub struct TwitchApiCall<T = ()> {
    pub url: String,
    pub call_type: TwitchApiCallType,
    pub method: HttpMethod,
    pub params: Vec<(String, String)>,
    pub body: Option<T>,
    pub scope: Option<String>,
}

impl TwitchApiCall<()> {
    /// A fresh builder for a descriptor without a body.
    pub fn builder_empty() -> (r: TwitchAPICallBuilder<()>)
        ensures
            r.is_fresh(),
    {
        TwitchAPICallBuilder::<()>::new()
    }
}

impl<T> TwitchApiCall<T> {
    /// A fresh builder for a descriptor with a body of type `T`.
    pub fn builder() -> (r: TwitchAPICallBuilder<T>)
        ensures
            r.is_fresh(),
    {
        TwitchAPICallBuilder::<T>::new()
    }

    /// The full resolved path of the invocation: the namespace's prefix,
    /// then the relative path with its leading slashes stripped.
    pub open spec fn spec_full_path(&self) -> Seq<char> {
        spec_path_prefix(self.call_type) + strip_leading_slashes(self.url@)
    }

    /// The absolute URL before query parameters are attached: scheme, the
    /// namespace's host and the full path, or the verbatim URL of a custom
    /// invocation.
    pub open spec fn spec_base_url(&self) -> Seq<char> {
        if self.call_type is Custom {
            self.url@
        } else {
            "https://"@ + spec_host(self.call_type) + self.spec_full_path()
        }
    }

    /// The host the invocation is addressed to.
    pub fn host(&self) -> (r: &str)
        requires
            !(self.call_type is Custom),
        ensures
            r@ == spec_host(self.call_type),
    {
        match self.call_type {
            TwitchApiCallType::Auth => "id.twitch.tv",
            _ => "api.twitch.tv",
        }
    }

    /// The full resolved path of the invocation.
    pub fn full_path(&self) -> (r: String)
        requires
            !(self.call_type is Custom),
        ensures
            r@ == self.spec_full_path(),
    {
        let prefix: &str = match self.call_type {
            TwitchApiCallType::Kraken => "/kraken/",
            TwitchApiCallType::Helix => "/helix/",
            TwitchApiCallType::Auth => "/oauth2/",
            TwitchApiCallType::Custom => unreached(),
        };
        let mut r = prefix.to_owned();
        let rest = stripped_path(self.url.as_str());
        r.append(rest);
        r
    }

    /// The absolute URL before query parameters are attached.
    pub fn base_url(&self) -> (r: String)
        ensures
            r@ == self.spec_base_url(),
    {
        match self.call_type {
            TwitchApiCallType::Custom => self.url.clone(),
            _ => {
                let mut r = "https://".to_owned();
                r.append(self.host());
                let path = self.full_path();
                r.append(path.as_str());
                r
            },
        }
    }

    /// The fully qualified URL of the invocation, query parameters
    /// attached in insertion order; `None` where a custom URL does not
    /// parse as an absolute URL.
    pub fn full_url(&self) -> (r: Option<String>)
        ensures
            r is Some <==> url_with_params(self.spec_base_url(), self.params.deep_view()) is Some,
            r is Some ==> r->0@ == url_with_params(
                self.spec_base_url(),
                self.params.deep_view(),
            )->0,
    {
        let base = self.base_url();
        parse_with_params(base.as_str(), &self.params)
    }

    /// The scope this invocation requires, if any.
    pub fn scope(&self) -> (r: Option<&str>)
        ensures
            r.deep_view() == self.scope.deep_view(),
    {
        match &self.scope {
            Some(s) => Some(s.as_str()),
            None => None,
        }
    }

    /// The HTTP method of the invocation.
    pub fn method(&self) -> (r: HttpMethod)
        ensures
            r == self.method,
    {
        self.method
    }
}

/// Fluent builder for [`TwitchApiCall`]; `build` validates and freezes the
/// descriptor.
pub struct TwitchAPICallBuilder<T = ()> {
    pub url: Option<String>,
    pub call_type: TwitchApiCallType,
    pub method: HttpMethod,
    pub params: Vec<(String, String)>,
    pub body: Option<T>,
    pub scope: Option<String>,
}

impl<T> TwitchAPICallBuilder<T> {
    /// What a builder fresh from [`TwitchAPICallBuilder::new`] holds: no
    /// URL, the current namespace, the GET method, and nothing else.
    pub open spec fn is_fresh(&self) -> bool {
        &&& self.url is None
        &&& self.call_type == TwitchApiCallType::Helix
        &&& self.method == HttpMethod::Get
        &&& self.params.deep_view() == Seq::<(Seq<char>, Seq<char>)>::empty()
        &&& self.body is None
        &&& self.scope is None
    }

    /// A fresh builder.
    pub fn new() -> (r: Self)
        ensures
            r.is_fresh(),
    {
        let r = TwitchAPICallBuilder {
            url: None,
            call_type: TwitchApiCallType::Helix,
            method: HttpMethod::Get,
            params: Vec::new(),
            body: None,
            scope: None,
        };
        proof {
            assert(r.params.deep_view() =~= Seq::<(Seq<char>, Seq<char>)>::empty());
        }
        r
    }

    /// Set the relative path (or, for the custom namespace, the absolute
    /// URL) of the invocation.
    pub fn with_url(self, url: &str) -> (r: Self)
        ensures
            r.url.deep_view() == Some(url@),
            r.call_type == self.call_type,
            r.method == self.method,
            r.params == self.params,
            r.body == self.body,
            r.scope == self.scope,
    {
        let TwitchAPICallBuilder { url: _, call_type, method, params, body, scope } = self;
        TwitchAPICallBuilder { url: Some(url.to_owned()), call_type, method, params, body, scope }
    }

    /// Set the target namespace.
    pub fn with_call_type(self, call_type: TwitchApiCallType) -> (r: Self)
        ensures
            r.call_type == call_type,
            r.url == self.url,
            r.method == self.method,
            r.params == self.params,
            r.body == self.body,
            r.scope == self.scope,
    {
        let TwitchAPICallBuilder { url, call_type: _, method, params, body, scope } = self;
        TwitchAPICallBuilder { url, call_type, method, params, body, scope }
    }

    /// Set the HTTP method.
    pub fn with_method(self, method: HttpMethod) -> (r: Self)
        ensures
            r.method == method,
            r.url == self.url,
            r.call_type == self.call_type,
            r.params == self.params,
            r.body == self.body,
            r.scope == self.scope,
    {
        let TwitchAPICallBuilder { url, call_type, method: _, params, body, scope } = self;
        TwitchAPICallBuilder { url, call_type, method, params, body, scope }
    }

    /// Supply the request body.
    pub fn with_body(self, body: T) -> (r: Self)
        ensures
            r.body == Some(body),
            r.url == self.url,
            r.call_type == self.call_type,
            r.method == self.method,
            r.params == self.params,
            r.scope == self.scope,
    {
        let TwitchAPICallBuilder { url, call_type, method, params, body: _, scope } = self;
        TwitchAPICallBuilder { url, call_type, method, params, body: Some(body), scope }
    }

    /// Append one query parameter; pairs keep their insertion order and
    /// duplicate keys are preserved.
    pub fn with_param(self, key: &str, value: &str) -> (r: Self)
        ensures
            r.params.deep_view() == self.params.deep_view().push((key@, value@)),
            r.url == self.url,
            r.call_type == self.call_type,
            r.method == self.method,
            r.body == self.body,
            r.scope == self.scope,
    {
        let TwitchAPICallBuilder { url, call_type, method, mut params, body, scope } = self;
        params.push((key.to_owned(), value.to_owned()));
        proof {
            assert(params.deep_view() =~= self.params.deep_view().push((key@, value@)));
        }
        TwitchAPICallBuilder { url, call_type, method, params, body, scope }
    }

    /// Set the scope the invocation requires.
    pub fn with_scope(self, scope: &str) -> (r: Self)
        ensures
            r.scope.deep_view() == Some(scope@),
            r.url == self.url,
            r.call_type == self.call_type,
            r.method == self.method,
            r.params == self.params,
            r.body == self.body,
    {
        let TwitchAPICallBuilder { url, call_type, method, params, body, scope: _ } = self;
        TwitchAPICallBuilder { url, call_type, method, params, body, scope: Some(scope.to_owned()) }
    }

    /// Validate and freeze the descriptor. Building fails exactly when no
    /// URL was given, or when the body type is not the unit type and no
    /// body was supplied.
    pub fn build(self) -> (r: Result<TwitchApiCall<T>, TwitchAPICallBuilderError>)
        ensures
            self.url is None ==> r is Err && r->Err_0.description@ == "No URL given"@,
            self.url is Some && vstd::layout::size_of::<T>() != 0 && self.body is None ==> r is Err
                && r->Err_0.description@ == "No body given"@,
            self.url is Some && (vstd::layout::size_of::<T>() == 0 || self.body is Some) ==> {
                &&& r is Ok
                &&& r->Ok_0.url == self.url->0
                &&& r->Ok_0.call_type == self.call_type
                &&& r->Ok_0.method == self.method
                &&& r->Ok_0.params == self.params
                &&& r->Ok_0.body == self.body
                &&& r->Ok_0.scope == self.scope
            },
    {
        let TwitchAPICallBuilder { url, call_type, method, params, body, scope } = self;
        let url = match url {
            Some(u) => u,
            None => {
                return Err(TwitchAPICallBuilderError::new("No URL given"));
            },
        };
        if core::mem::size_of::<T>() > 0 && body.is_none() {
            return Err(TwitchAPICallBuilderError::new("No body given"));
        }
        Ok(TwitchApiCall { url, call_type, method, params, body, scope })
    }
}

/// Every descriptor in the current namespace resolves to the platform's
/// API host, and its path is the namespace prefix followed by the relative
/// path with its leading slashes stripped.
pub proof fn lemma_helix_resolution<T>(call: TwitchApiCall<T>)
    requires
        call.call_type == TwitchApiCallType::Helix,
    ensures
        spec_host(call.call_type) == "api.twitch.tv"@,
        call.spec_full_path() == "/helix/"@ + strip_leading_slashes(call.url@),
        call.spec_base_url() == "https://"@ + "api.twitch.tv"@ + ("/helix/"@ + strip_leading_slashes(
            call.url@,
        )),
{
}

/// Every descriptor in the authorization-server namespace resolves to the
/// platform's ID host, and its path is the namespace prefix followed by
/// the relative path with its leading slashes stripped.
pub proof fn lemma_auth_resolution<T>(call: TwitchApiCall<T>)
    requires
        call.call_type == TwitchApiCallType::Auth,
    ensures
        spec_host(call.call_type) == "id.twitch.tv"@,
        call.spec_full_path() == "/oauth2/"@ + strip_leading_slashes(call.url@),
        call.spec_base_url() == "https://"@ + "id.twitch.tv"@ + ("/oauth2/"@ + strip_leading_slashes(
            call.url@,
        )),
{
}

/// The failure of [`TwitchAPICallBuilder::build`]: a malformed descriptor,
/// with the missing field named.
#[derive(Debug)]
pub struct TwitchAPICallBuilderError {
    pub description: String,
}

impl TwitchAPICallBuilderError {
    /// An error with the given description.
    pub fn new(description: &str) -> (r: Self)
        ensures
            r.description@ == description@,
    {
        TwitchAPICallBuilderError { description: description.to_owned() }
    }

    /// The description of what was missing.
    pub fn description(&self) -> (r: &str)
        ensures
            r@ == self.description@,
    {
        self.description.as_str()
    }
}

} // verus!
