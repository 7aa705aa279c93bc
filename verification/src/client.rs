//! Client configuration and request assembly.
//!
//! An `ApiClient` holds an authentication token and a base URL, both fixed at
//! construction. `prepare_request` turns a route and an optional body into a
//! `PreparedRequest`: the full URL, the value for the authentication header,
//! and the encoded JSON body text. An empty body is permitted only for the
//! token-retrieval route; every other route is refused before any network
//! activity. The embedding application performs the HTTP POST itself.

use vstd::prelude::*;

use crate::error::ApiError;
use crate::json::{body_text, RequestBody};

verus! {

/// The default base URL of the gateway service.
pub open spec fn default_base_url_spec() -> Seq<char> {
    "http://localhost:2531/v2/api"@
}

/// The name of the custom header that carries the authentication token.
pub open spec fn auth_header_name_spec() -> Seq<char> {
    "X-GEWE-TOKEN"@
}

/// The single route that may be dispatched with no body.
pub open spec fn token_route_spec() -> Seq<char> {
    "/tools/getTokenId"@
}

pub fn default_base_url() -> (r: &'static str)
    ensures
        r@ == default_base_url_spec(),
{
    "http://localhost:2531/v2/api"
}

pub fn auth_header_name() -> (r: &'static str)
    ensures
        r@ == auth_header_name_spec(),
{
    "X-GEWE-TOKEN"
}

pub fn token_route() -> (r: &'static str)
    ensures
        r@ == token_route_spec(),
{
    "/tools/getTokenId"
}

fn str_eq(a: &str, b: &str) -> (r: bool)
    ensures
        r == (a@ == b@),
{
    let na = a.unicode_len();
    let nb = b.unicode_len();
    if na != nb {
        proof {
            if a@ == b@ {
                assert(a@.len() == b@.len());
            }
        }
        return false;
    }
    let mut i: usize = 0;
    while i < na
        invariant
            i <= na,
            na == a@.len(),
            na == nb,
            nb == b@.len(),
            forall|j: int| 0 <= j < i ==> a@[j] == b@[j],
        decreases na - i,
    {
        if a.get_char(i) != b.get_char(i) {
            proof {
                if a@ == b@ {
                    assert(a@[i as int] == b@[i as int]);
                }
            }
            return false;
        }
        i = i + 1;
    }
    proof {
        assert(a@ =~= b@);
    }
    true
}

/// Everything the HTTP layer needs to issue one POST: the full URL, the
/// authentication token for the custom header, and the JSON body text, if
/// the call carries one.
#[derive(Debug, Clone)]
pub struct PreparedRequest {
    pub url: String,
    pub token: String,
    pub body: Option<String>,
}

/// A configured client: an authentication token (possibly empty) and a base
/// URL. Immutable once built; every request issued through it reads the same
/// two strings.
#[derive(Debug)]
pub struct ApiClient {
    pub token: String,
    pub base_url: String,
}

impl Default for ApiClient {
    fn default() -> (r: ApiClient)
        ensures
            r.token@ == Seq::<char>::empty(),
            r.base_url@ == Seq::<char>::empty(),
    {
        ApiClient { token: String::new(), base_url: String::new() }
    }
}

/// The ghost state of a builder: which of the two settings have been given.
pub ghost struct BuilderView {
    pub token: Option<Seq<char>>,
    pub base_url: Option<Seq<char>>,
}

/// Accumulates the optional settings for an `ApiClient` and fills in the
/// defaults at `build`: an empty token, and `default_base_url_spec` as the
/// base URL.
pub struct ApiClientBuilder {
    token: Option<String>,
    base_url: Option<String>,
}

impl View for ApiClientBuilder {
    type V = BuilderView;

    closed spec fn view(&self) -> BuilderView {
        BuilderView {
            token: match self.token {
                Some(t) => Some(t@),
                None => None,
            },
            base_url: match self.base_url {
                Some(u) => Some(u@),
                None => None,
            },
        }
    }
}

impl Default for ApiClientBuilder {
    fn default() -> (r: ApiClientBuilder)
        ensures
            r@.token is None,
            r@.base_url is None,
    {
        ApiClientBuilder::new()
    }
}

impl ApiClientBuilder {
    /// A builder with neither setting given.
    pub fn new() -> (r: ApiClientBuilder)
        ensures
            r@.token is None,
            r@.base_url is None,
    {
        ApiClientBuilder { token: None, base_url: None }
    }

    /// Sets the authentication token.
    pub fn with_token(self, token: &str) -> (r: ApiClientBuilder)
        ensures
            r@.token matches Some(t) && t == token@,
            r@.base_url == self@.base_url,
    {
        ApiClientBuilder { token: Some(token.to_owned()), base_url: self.base_url }
    }

    /// Sets the base URL.
    pub fn with_base_url(self, base_url: &str) -> (r: ApiClientBuilder)
        ensures
            r@.base_url matches Some(u) && u == base_url@,
            r@.token == self@.token,
    {
        ApiClientBuilder { token: self.token, base_url: Some(base_url.to_owned()) }
    }

    /// Produces the immutable client, defaulting the token to the empty
    /// string and the base URL to the fixed constant.
    pub fn build(self) -> (c: ApiClient)
        ensures
            c.token@ == match self@.token {
                Some(t) => t,
                None => Seq::<char>::empty(),
            },
            c.base_url@ == match self@.base_url {
                Some(u) => u,
                None => default_base_url_spec(),
            },
    {
        let token = match self.token {
            Some(t) => t,
            None => String::new(),
        };
        let base_url = match self.base_url {
            Some(u) => u,
            None => default_base_url().to_owned(),
        };
        ApiClient { token, base_url }
    }
}

impl ApiClient {
    /// Assembles the request for `route`.
    ///
    /// With a body, or with no body on the token-retrieval route, the result
    /// is the POST target `base_url + route`, the configured token for the
    /// authentication header, and the body's JSON text verbatim. With no
    /// body on any other route the call is refused with a `Configuration`
    /// error naming the route, before any network activity.
    pub fn prepare_request(&self, route: &str, body: Option<&RequestBody>) -> (r: Result<
        PreparedRequest,
        ApiError,
    >)
        ensures
            (body is Some || route@ == token_route_spec()) ==> (r matches Ok(p) && {
                &&& p.url@ == self.base_url@ + route@
                &&& p.token@ == self.token@
                &&& match body {
                    Some(b) => p.body matches Some(text) && text@ == body_text(b@),
                    None => p.body is None,
                }
            }),
            (body is None && route@ != token_route_spec()) ==> (r matches Err(e) && e matches ApiError::Configuration(refused) && refused@ == route@),
    {
        let encoded: Option<String> = match body {
            Some(b) => Some(b.encode()),
            None => {
                if !str_eq(route, token_route()) {
                    return Err(ApiError::Configuration(route.to_owned()));
                }
                None
            },
        };
        let mut url = self.base_url.clone();
        url.append(route);
        Ok(PreparedRequest { url, token: self.token.clone(), body: encoded })
    }
}

} // verus!
