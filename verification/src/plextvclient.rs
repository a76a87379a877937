//! The account client: the current token, and the requests to the account
//! service.

use vstd::prelude::*;
use vstd::utf8::encode_utf8;
use reqwest::header::HeaderMap;
use reqwest::header::InvalidHeaderValue;
use crate::apiclient::build_default_headers;
use crate::apiclient::default_headers;
use crate::apiclient::lemma_default_headers;
use crate::apiclient::opt_text;
use crate::apiclient::ApiClient;
use crate::apiclient::Method;
use crate::apiclient::QueryParams;
use crate::apiclient::Request;
use crate::apiclient::TOKEN;
use crate::errors::ApiErrors;
use crate::headers::header_map_entries;
use crate::headers::is_header_text;
use crate::headers::is_visible_text;
use crate::headers::lemma_printable_is_visible;
use crate::headers::HeaderEntries;
use crate::text::decimal;
use crate::text::push_decimal;
use crate::types::CreatePinResponse;

verus! {

/// `reqwest::Error`, the failure of sending a request or receiving its
/// answer. The crate only carries it.
#[verifier::external_type_specification]
#[verifier::external_body]
pub struct ExReqwestError(reqwest::Error);

/// `serde_json::Error`, the failure of reading a body as JSON. The crate
/// only carries it.
#[verifier::external_type_specification]
#[verifier::external_body]
pub struct ExJsonError(serde_json::Error);

/// The address of the account service.
pub const PLEXTV: &'static str = "https://plex.tv";

/// The address of the web application where a user confirms a link.
pub const APP_PLEXTV: &'static str = "https://app.plex.tv";

/// The name under which this client presents itself.
pub const CLIENT_ID: &'static str = "Maple_1_0";

/// How a call to the service fails.
#[derive(Debug)]
pub enum RequestError {
    /// The service answered with errors of its own.
    Error(ApiErrors),
    /// The request could not be sent, or no answer came back.
    SendError(reqwest::Error),
    /// The body of the answer was not what was expected.
    DeserError(serde_json::Error),
}

impl RequestError {
    pub open spec fn spec_message(self) -> Seq<char> {
        match self {
            RequestError::Error(_) => "plex.tv returned one or more errors"@,
            RequestError::SendError(_) => "Error while sending request"@,
            RequestError::DeserError(_) => "Deserialization failed."@,
        }
    }

    /// The human-readable message of this failure.
    pub fn message(&self) -> (m: &'static str)
        ensures
            m@ == self.spec_message(),
    {
        match self {
            RequestError::Error(_) => "plex.tv returned one or more errors",
            RequestError::SendError(_) => "Error while sending request",
            RequestError::DeserError(_) => "Deserialization failed.",
        }
    }
}

impl From<reqwest::Error> for RequestError {
    fn from(err: reqwest::Error) -> (r: Self) {
        RequestError::SendError(err)
    }
}

impl vstd::std_specs::convert::FromSpecImpl<reqwest::Error> for RequestError {
    open spec fn obeys_from_spec() -> bool {
        true
    }

    open spec fn from_spec(err: reqwest::Error) -> Self {
        RequestError::SendError(err)
    }
}

/// The client's own name is visible ASCII.
pub proof fn lemma_client_id_visible()
    ensures
        is_visible_text(CLIENT_ID@),
{
    reveal_strlit("Maple_1_0");
    lemma_printable_is_visible(CLIENT_ID@);
}

fn create_default_headers(token: &Option<String>) -> (r: Result<HeaderMap, InvalidHeaderValue>)
    ensures
        r is Ok <==> (opt_text(*token) matches Some(t) ==> is_header_text(t)),
        r matches Ok(m) ==> header_map_entries(m) == default_headers(CLIENT_ID@, opt_text(*token)),
{
    proof {
        lemma_client_id_visible();
    }
    match token {
        Some(tk) => build_default_headers(CLIENT_ID, Some(tk.as_str())),
        None => build_default_headers(CLIENT_ID, None),
    }
}

/// The text of a query flag.
pub open spec fn flag_text(on: bool) -> Seq<char> {
    if on {
        seq!['1']
    } else {
        seq!['0']
    }
}

/// The text of a truth value in a path.
pub open spec fn bool_text(b: bool) -> Seq<char> {
    if b {
        "true"@
    } else {
        "false"@
    }
}

/// Query parameters as a sequence of pairs of texts.
pub open spec fn query_text(q: Option<QueryParams<'_>>) -> Option<Seq<(Seq<char>, Seq<char>)>> {
    match q {
        Some(pairs) => Some(Seq::new(pairs@.len(), |i: int| (pairs@[i].0@, pairs@[i].1@))),
        None => None,
    }
}

/// The query of a resource listing.
pub open spec fn resources_query(include_https: bool, include_relay: bool, include_ipv6: bool) -> Seq<
    (Seq<char>, Seq<char>),
> {
    seq![
        ("includeHttps"@, flag_text(include_https)),
        ("includeRelay"@, flag_text(include_relay)),
        ("includeIPv6"@, flag_text(include_ipv6)),
    ]
}

/// The address at which a user confirms the link for a PIN code.
pub open spec fn auth_url(code: Seq<char>) -> Seq<char> {
    APP_PLEXTV@ + "/auth#?clientID="@ + CLIENT_ID@ + "&code="@ + code
}

fn flag(on: bool) -> (s: &'static str)
    ensures
        s@ == flag_text(on),
{
    proof {
        reveal_strlit("1");
        reveal_strlit("0");
    }
    if on {
        "1"
    } else {
        "0"
    }
}

pub struct PlexTvClientView {
    pub token: Option<Seq<char>>,
    pub base_url: Seq<char>,
    pub headers: HeaderEntries,
}

/// The account client: the current token and the generic client that it
/// configures.
#[derive(Debug)]
pub struct PlexTvClient {
    token: Option<String>,
    client: ApiClient,
}

impl View for PlexTvClient {
    type V = PlexTvClientView;

    closed spec fn view(&self) -> PlexTvClientView {
        PlexTvClientView {
            token: opt_text(self.token),
            base_url: self.client@.base_url,
            headers: self.client@.headers,
        }
    }
}

impl PlexTvClient {
    /// The header set carries no token, or the current one: never one that
    /// was replaced.
    pub open spec fn wf(&self) -> bool {
        ||| self@.headers == default_headers(CLIENT_ID@, None)
        ||| self@.headers == default_headers(CLIENT_ID@, self@.token)
    }

    /// Whether the token, where there is one, can be sent as a header.
    pub open spec fn token_sendable(&self) -> bool {
        self@.token matches Some(t) ==> is_header_text(t)
    }

    /// A client for the service at `base_url` that remembers `token`, the
    /// token kept from an earlier run if there is one. Its header set
    /// carries no token until `reset_headers` or `set_token` is called.
    pub fn new(base_url: &'static str, token: Option<String>) -> (r: Self)
        ensures
            r@.token == opt_text(token),
            r@.base_url == base_url@,
            r@.headers == default_headers(CLIENT_ID@, None),
            r.wf(),
    {
        let none: Option<String> = None;
        let headers = create_default_headers(&none).unwrap();
        Self { token, client: ApiClient::new(base_url, headers) }
    }

    pub fn has_token(&self) -> (r: bool)
        ensures
            r == self@.token is Some,
    {
        self.token.is_some()
    }

    pub fn token(&self) -> (r: &Option<String>)
        ensures
            opt_text(*r) == self@.token,
    {
        &self.token
    }

    pub fn client(&self) -> (r: &ApiClient)
        ensures
            r@.base_url == self@.base_url,
            r@.headers == self@.headers,
    {
        &self.client
    }

    /// Replaces the token and builds the header set anew. `None` signs the
    /// client out: the token header is then absent, not empty.
    pub fn set_token(&mut self, token: Option<String>)
        requires
            opt_text(token) matches Some(t) ==> is_header_text(t),
        ensures
            final(self)@.token == opt_text(token),
            final(self)@.base_url == old(self)@.base_url,
            final(self)@.headers == default_headers(CLIENT_ID@, opt_text(token)),
            final(self).wf(),
    {
        self.token = token;
        self.reset_headers();
    }

    /// Builds the header set anew from the current token.
    pub fn reset_headers(&mut self)
        requires
            old(self).token_sendable(),
        ensures
            final(self)@.token == old(self)@.token,
            final(self)@.base_url == old(self)@.base_url,
            final(self)@.headers == default_headers(CLIENT_ID@, old(self)@.token),
            final(self).wf(),
    {
        let headers = create_default_headers(&self.token).unwrap();
        self.client.reset_headers(headers);
    }

    /// The request that creates a linking PIN. With `strong` the service
    /// gives a long code for completion in a browser, else a short one that
    /// a person can type.
    pub fn create_pin(&self, strong: bool) -> (r: Request<'static>)
        ensures
            r.method == Method::Post,
            r.url@ == self@.base_url + "/api/v2/pins?strong="@ + bool_text(strong),
            r.query is None,
            header_map_entries(r.headers) == self@.headers,
    {
        let path = String::from_str("/api/v2/pins?strong=").concat(
            if strong {
                "true"
            } else {
                "false"
            },
        );
        proof {
            reveal_strlit("/api/v2/pins?strong=");
        }
        self.client.post(path.as_str())
    }

    /// The address at which the user confirms the link for `pin`.
    pub fn get_auth_url(&self, pin: &CreatePinResponse) -> (r: String)
        ensures
            r@ == auth_url(pin.code@),
    {
        String::from_str(APP_PLEXTV).concat("/auth#?clientID=").concat(CLIENT_ID).concat(
            "&code=",
        ).concat(pin.code.as_str())
    }

    /// The request that asks once for the status of `pin`.
    pub fn try_pin(&self, pin: &CreatePinResponse) -> (r: Request<'static>)
        ensures
            r.method == Method::Get,
            r.url@ == self@.base_url + "/api/v2/pins/"@ + decimal(pin.id as nat),
            r.query is None,
            header_map_entries(r.headers) == self@.headers,
    {
        let mut path = String::from_str("/api/v2/pins/");
        push_decimal(&mut path, pin.id);
        proof {
            reveal_strlit("/api/v2/pins/");
        }
        self.client.get(path.as_str(), None)
    }

    /// The request that lists the account's resources.
    pub fn get_resources(&self, include_https: bool, include_relay: bool, include_ipv6: bool) -> (r:
        Request<'static>)
        ensures
            r.method == Method::Get,
            r.url@ == self@.base_url + "/api/v2/resources"@,
            query_text(r.query) == Some(
                resources_query(include_https, include_relay, include_ipv6),
            ),
            header_map_entries(r.headers) == self@.headers,
    {
        let params: QueryParams<'static> = vec![
            ("includeHttps", flag(include_https)),
            ("includeRelay", flag(include_relay)),
            ("includeIPv6", flag(include_ipv6)),
        ];
        proof {
            reveal_strlit("/api/v2/resources");
        }
        let r = self.client.get("/api/v2/resources", Some(params));
        r
    }

    /// The request that fetches the profile of the account.
    pub fn get_user(&self) -> (r: Request<'static>)
        ensures
            r.method == Method::Get,
            r.url@ == self@.base_url + "/api/v2/user"@,
            r.query is None,
            header_map_entries(r.headers) == self@.headers,
    {
        proof {
            reveal_strlit("/api/v2/user");
        }
        self.client.get("/api/v2/user", None)
    }
}

/// After `set_token(Some(t))` the header set holds the token header with
/// the bytes of `t`; after `set_token(None)` it holds no token header.
pub proof fn lemma_token_round_trip(token: Option<Seq<char>>)
    ensures
        token matches Some(t) ==> default_headers(CLIENT_ID@, token).contains_key(TOKEN@)
            && default_headers(CLIENT_ID@, token)[TOKEN@] == encode_utf8(t),
        token is None ==> !default_headers(CLIENT_ID@, token).contains_key(TOKEN@),
{
    lemma_default_headers(CLIENT_ID@, token);
}

/// A well-formed client never sends a token that was replaced: where its
/// header set holds a token header, that is the current token.
pub proof fn lemma_no_stale_token(c: PlexTvClient)
    requires
        c.wf(),
        c@.headers.contains_key(TOKEN@),
    ensures
        c@.token matches Some(t) && c@.headers[TOKEN@] == encode_utf8(t),
{
    lemma_default_headers(CLIENT_ID@, None);
    lemma_default_headers(CLIENT_ID@, c@.token);
}

} // verus!
