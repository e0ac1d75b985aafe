//! A client for the nRF Cloud REST API that performs no I/O of its own.
//!
//! The handle builds the request that a call sends and decides what a
//! response means; the caller's transport carries the request out.

use vstd::prelude::*;
use vstd::string::*;

pub mod json;
pub mod messages;
pub mod query;
pub mod request;

use crate::request::Expect;
use crate::request::Request;
use crate::request::RequestView;
use crate::request::pairs_view;

verus! {

/// The base URL that a new handle talks to.
pub open spec fn default_base_url() -> Seq<char> {
    "https://api.nrfcloud.com/v1"@
}

/// The name of the header that carries the token.
pub open spec fn authorization_name() -> Seq<char> {
    "Authorization"@
}

/// The value of the header that carries `token`.
pub open spec fn authorization_value(token: Seq<char>) -> Seq<char> {
    "Bearer "@ + token
}

/// What a handle holds, as mathematical values.
pub struct ClientView {
    pub token: Seq<char>,
    pub base_url: Seq<char>,
}

/// The handle that `new` builds for `token`.
pub open spec fn new_client(token: Seq<char>) -> ClientView {
    ClientView { token, base_url: default_base_url() }
}

/// The request that a handle sends to `endpoint` with the parameters `query`.
pub open spec fn request_for(
    client: ClientView,
    endpoint: Seq<char>,
    query: Seq<(Seq<char>, Seq<char>)>,
    expect: Expect,
) -> RequestView {
    RequestView {
        url: client.base_url + endpoint,
        header_name: authorization_name(),
        header_value: authorization_value(client.token),
        query,
        expect,
    }
}

/// Every request of a handle carries the header `Authorization`, whose
/// value is `Bearer `, a space included, and behind it the token of the
/// handle, character for character: whatever the base URL, the endpoint, the
/// parameters and the use of the body. The token is the one that the handle
/// was built with, also after another base URL was set.
pub proof fn every_request_carries_the_token(
    token: Seq<char>,
    base_url: Seq<char>,
    endpoint: Seq<char>,
    query: Seq<(Seq<char>, Seq<char>)>,
    expect: Expect,
)
    ensures
        new_client(token).token == token,
        ({
            let client = ClientView { token, base_url };
            let request = request_for(client, endpoint, query, expect);
            &&& request.header_name == "Authorization"@
            &&& request.header_value.len() == 7 + token.len()
            &&& request.header_value.subrange(0, 7) == "Bearer "@
            &&& request.header_value.subrange(7, request.header_value.len() as int) == token
        }),
{
    reveal_strlit("Bearer ");
    let value = authorization_value(token);
    assert(value.subrange(0, 7) =~= "Bearer "@);
    assert(value.subrange(7, value.len() as int) =~= token);
}

/// A handle on the API: the bearer token and the base URL.
///
/// Both are fixed once the handle is built: no method takes the handle by
/// mutable reference.
pub struct NRFCloudClient {
    token: String,
    base_url: String,
}

impl View for NRFCloudClient {
    type V = ClientView;

    closed spec fn view(&self) -> ClientView {
        ClientView { token: self.token@, base_url: self.base_url@ }
    }
}

impl NRFCloudClient {
    /// A handle with the given token and the default base URL. The token is
    /// taken as it is.
    pub fn new(token: &str) -> (client: Self)
        ensures
            client@ == new_client(token@),
    {
        NRFCloudClient {
            token: token.to_owned(),
            base_url: "https://api.nrfcloud.com/v1".to_owned(),
        }
    }

    /// The same handle with another base URL, for use against an alternate
    /// endpoint such as a local stand-in for the service.
    pub fn with_base_url(self, base_url: &str) -> (client: Self)
        ensures
            client@ == (ClientView { token: self@.token, base_url: base_url@ }),
    {
        NRFCloudClient { token: self.token, base_url: base_url.to_owned() }
    }

    /// The request for a GET of `endpoint`, whose body is returned as text.
    pub fn get(&self, endpoint: &str) -> (request: Request)
        ensures
            request@ == request_for(self@, endpoint@, Seq::empty(), Expect::Text),
    {
        let params: Vec<(String, String)> = Vec::new();
        assert(pairs_view(params@) =~= Seq::empty());
        self.build(endpoint, params, Expect::Text)
    }

    /// The request for a GET of `endpoint` with query parameters, whose body
    /// is returned as text. The parameters are sent in the order given.
    pub fn get_with_params(&self, endpoint: &str, params: Vec<(String, String)>) -> (request:
        Request)
        ensures
            request@ == request_for(self@, endpoint@, pairs_view(params@), Expect::Text),
    {
        self.build(endpoint, params, Expect::Text)
    }

    /// The request for a GET of `endpoint`, whose body is read as JSON.
    pub fn get_json(&self, endpoint: &str) -> (request: Request)
        ensures
            request@ == request_for(self@, endpoint@, Seq::empty(), Expect::Json),
    {
        let params: Vec<(String, String)> = Vec::new();
        assert(pairs_view(params@) =~= Seq::empty());
        self.build(endpoint, params, Expect::Json)
    }

    /// The request for a GET of `endpoint` with query parameters, whose body
    /// is read as JSON. The parameters are sent in the order given.
    pub fn get_json_with_params(&self, endpoint: &str, params: Vec<(String, String)>) -> (request:
        Request)
        ensures
            request@ == request_for(self@, endpoint@, pairs_view(params@), Expect::Json),
    {
        self.build(endpoint, params, Expect::Json)
    }

    fn build(&self, endpoint: &str, params: Vec<(String, String)>, expect: Expect) -> (request:
        Request)
        ensures
            request@ == request_for(self@, endpoint@, pairs_view(params@), expect),
    {
        let mut url = self.base_url.clone();
        url.append(endpoint);
        let mut header_value = "Bearer ".to_owned();
        header_value.append(self.token.as_str());
        Request {
            url,
            header_name: "Authorization".to_owned(),
            header_value,
            query: params,
            expect,
        }
    }
}

} // verus!
