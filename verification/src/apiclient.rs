//! The generic client: a base address and a header set.
//!
//! The client does not send anything itself. A call goes in four steps:
//! `get` or `post` makes the request, with the headers that the client has
//! at that moment; the caller sends it; `body_kind` says from the status
//! what the body of the answer has to be read as; and `finish` turns the body
//! as read into the result of the call.
//!
//! The address of a request is the base address followed by the path. The
//! slash that parts the two comes with the path, or is added where the path
//! brings none: it is never written twice.

use vstd::prelude::*;
use vstd::string::StrSliceExecFns;
use vstd::utf8::encode_utf8;
use reqwest::header::HeaderMap;
use reqwest::header::InvalidHeaderValue;
use crate::errors::resolve_seq;
use crate::errors::ApiErrors;
use crate::errors::PlexTvErrors;
use crate::headers::header_map_clone;
use crate::headers::header_map_entries;
use crate::headers::header_map_insert;
use crate::headers::header_map_new;
use crate::headers::header_value_from_static;
use crate::headers::header_value_from_str;
use crate::headers::is_header_text;
use crate::headers::is_plain_name;
use crate::headers::is_visible_text;
use crate::headers::lemma_printable_is_visible;
use crate::headers::HeaderEntries;
use crate::plextvclient::RequestError;

verus! {

pub const CONTENT_TYPE: &'static str = "content-type";

pub const ACCEPT: &'static str = "accept";

pub const CLIENT_IDENTIFIER: &'static str = "x-plex-client-identifier";

pub const PRODUCT: &'static str = "x-plex-product";

pub const TOKEN: &'static str = "x-plex-token";

pub const FORM_URLENCODED: &'static str = "application/x-www-form-urlencoded";

pub const JSON: &'static str = "application/json";

pub const PRODUCT_NAME: &'static str = "Maple for Plex";

/// The headers that every request carries, whoever sends it.
pub open spec fn fixed_headers(client_id: Seq<char>) -> HeaderEntries {
    HeaderEntries::empty().insert(CONTENT_TYPE@, encode_utf8(FORM_URLENCODED@)).insert(
        ACCEPT@,
        encode_utf8(JSON@),
    ).insert(CLIENT_IDENTIFIER@, encode_utf8(client_id)).insert(
        PRODUCT@,
        encode_utf8(PRODUCT_NAME@),
    )
}

/// The header set of a client with this token: the fixed headers and, only
/// where there is a token, the token header.
pub open spec fn default_headers(client_id: Seq<char>, token: Option<Seq<char>>) -> HeaderEntries {
    match token {
        Some(t) => fixed_headers(client_id).insert(TOKEN@, encode_utf8(t)),
        None => fixed_headers(client_id),
    }
}

/// The text of an optional string.
pub open spec fn opt_text(s: Option<String>) -> Option<Seq<char>> {
    match s {
        Some(t) => Some(t@),
        None => None,
    }
}

/// The text of an optional string slice.
pub open spec fn opt_str_text(s: Option<&str>) -> Option<Seq<char>> {
    match s {
        Some(t) => Some(t@),
        None => None,
    }
}

proof fn lemma_names_plain()
    ensures
        is_plain_name(CONTENT_TYPE@),
        is_plain_name(ACCEPT@),
        is_plain_name(CLIENT_IDENTIFIER@),
        is_plain_name(PRODUCT@),
        is_plain_name(TOKEN@),
        CONTENT_TYPE@.len() == 12,
        ACCEPT@.len() == 6,
        CLIENT_IDENTIFIER@.len() == 24,
        PRODUCT@.len() == 14,
        TOKEN@.len() == 12,
        TOKEN@[0] == 'x',
        CONTENT_TYPE@[0] == 'c',
{
    reveal_strlit("content-type");
    reveal_strlit("accept");
    reveal_strlit("x-plex-client-identifier");
    reveal_strlit("x-plex-product");
    reveal_strlit("x-plex-token");
}

proof fn lemma_values_visible()
    ensures
        is_visible_text(FORM_URLENCODED@),
        is_visible_text(JSON@),
        is_visible_text(PRODUCT_NAME@),
{
    reveal_strlit("application/x-www-form-urlencoded");
    reveal_strlit("application/json");
    reveal_strlit("Maple for Plex");
    lemma_printable_is_visible(FORM_URLENCODED@);
    lemma_printable_is_visible(JSON@);
    lemma_printable_is_visible(PRODUCT_NAME@);
}

/// The five header names differ from one another: the token header is in a
/// header set only where a token put it there, and each fixed header holds
/// its own value.
pub proof fn lemma_default_headers(client_id: Seq<char>, token: Option<Seq<char>>)
    ensures
        default_headers(client_id, token).dom().finite(),
        default_headers(client_id, token).contains_key(TOKEN@) <==> token is Some,
        token matches Some(t) ==> default_headers(client_id, token)[TOKEN@] == encode_utf8(t),
        default_headers(client_id, token)[CONTENT_TYPE@] == encode_utf8(FORM_URLENCODED@),
        default_headers(client_id, token)[ACCEPT@] == encode_utf8(JSON@),
        default_headers(client_id, token)[CLIENT_IDENTIFIER@] == encode_utf8(client_id),
        default_headers(client_id, token)[PRODUCT@] == encode_utf8(PRODUCT_NAME@),
        default_headers(client_id, token).contains_key(CONTENT_TYPE@),
        default_headers(client_id, token).contains_key(ACCEPT@),
        default_headers(client_id, token).contains_key(CLIENT_IDENTIFIER@),
        default_headers(client_id, token).contains_key(PRODUCT@),
        default_headers(client_id, token).dom().len() == (if token is Some {
            5nat
        } else {
            4nat
        }),
{
    lemma_names_plain();
}

/// Builds the header set of a client from nothing: never by patching an
/// earlier set. It fails only where the token cannot be a header value.
pub fn build_default_headers(client_id: &'static str, token: Option<&str>) -> (r: Result<
    HeaderMap,
    InvalidHeaderValue,
>)
    requires
        is_visible_text(client_id@),
    ensures
        r is Ok <==> (opt_str_text(token) matches Some(t) ==> is_header_text(t)),
        r matches Ok(m) ==> header_map_entries(m) == default_headers(
            client_id@,
            opt_str_text(token),
        ),
{
    proof {
        lemma_names_plain();
        lemma_values_visible();
        lemma_default_headers(client_id@, None);
    }
    let mut headers = header_map_new();
    header_map_insert(&mut headers, CONTENT_TYPE, header_value_from_static(FORM_URLENCODED));
    header_map_insert(&mut headers, ACCEPT, header_value_from_static(JSON));
    header_map_insert(&mut headers, CLIENT_IDENTIFIER, header_value_from_static(client_id));
    header_map_insert(&mut headers, PRODUCT, header_value_from_static(PRODUCT_NAME));
    match token {
        Some(tk) => {
            match header_value_from_str(tk) {
                Ok(value) => {
                    header_map_insert(&mut headers, TOKEN, value);
                    Ok(headers)
                },
                Err(e) => Err(e),
            }
        },
        None => Ok(headers),
    }
}

/// The query parameters of a request: names and values, in order.
pub type QueryParams<'a> = Vec<(&'a str, &'a str)>;

#[derive(Debug, Clone, Copy, PartialEq, Eq, Structural)]
pub enum Method {
    Get,
    Post,
}

/// A request that is ready to be sent. It owns the header set that the
/// client had when the request was made: a later change of the client's
/// headers does not reach it.
#[derive(Debug)]
pub struct Request<'a> {
    pub method: Method,
    pub url: String,
    pub query: Option<QueryParams<'a>>,
    pub headers: HeaderMap,
}

/// What the body of a response has to be read as.
#[derive(Debug, Clone, Copy, PartialEq, Eq, Structural)]
pub enum BodyKind {
    /// The value that the caller asked for.
    Payload,
    /// An error envelope.
    ErrorEnvelope,
}

/// The body of a response after the attempt to read it as its kind asks.
#[derive(Debug)]
pub enum Decoded<T> {
    Payload(Result<T, serde_json::Error>),
    ErrorEnvelope(Result<PlexTvErrors, serde_json::Error>),
}

/// Whether an HTTP status is a success status.
pub open spec fn is_success(status: u16) -> bool {
    200 <= status < 300
}

/// Whether a path brings its own leading slash.
pub open spec fn has_leading_slash(path: Seq<char>) -> bool {
    path.len() > 0 && path[0] == '/'
}

/// The address of a request: the base address and the path, parted by one
/// slash. A path that begins with a slash follows the base address as it
/// is; any other path is given the slash.
pub open spec fn request_url(base_url: Seq<char>, path: Seq<char>) -> Seq<char> {
    if has_leading_slash(path) {
        base_url + path
    } else {
        base_url + seq!['/'] + path
    }
}

/// What a response comes to, given its body as read.
pub open spec fn outcome<T>(decoded: Decoded<T>, r: Result<T, RequestError>) -> bool {
    match decoded {
        Decoded::Payload(Ok(value)) => r == Ok::<T, RequestError>(value),
        Decoded::Payload(Err(e)) => r == Err::<T, RequestError>(RequestError::DeserError(e)),
        Decoded::ErrorEnvelope(Ok(wire)) => r matches Err(RequestError::Error(errors))
            && errors.errors@ == resolve_seq(wire.errors@),
        Decoded::ErrorEnvelope(Err(e)) => r == Err::<T, RequestError>(RequestError::DeserError(e)),
    }
}

pub struct ApiClientView {
    pub base_url: Seq<char>,
    pub headers: HeaderEntries,
}

/// The generic client: a base address and the header set that its requests
/// carry.
#[derive(Debug)]
pub struct ApiClient {
    base_url: String,
    headers: HeaderMap,
}

impl View for ApiClient {
    type V = ApiClientView;

    closed spec fn view(&self) -> ApiClientView {
        ApiClientView { base_url: self.base_url@, headers: header_map_entries(self.headers) }
    }
}

impl ApiClient {
    pub fn new(base_url: &str, default_headers: HeaderMap) -> (r: Self)
        ensures
            r@.base_url == base_url@,
            r@.headers == header_map_entries(default_headers),
    {
        Self { base_url: String::from_str(base_url), headers: default_headers }
    }

    /// Replaces the whole header set.
    pub fn reset_headers(&mut self, headers: HeaderMap)
        ensures
            final(self)@.base_url == old(self)@.base_url,
            final(self)@.headers == header_map_entries(headers),
    {
        self.headers = headers;
    }

    pub fn base_url(&self) -> (r: &str)
        ensures
            r@ == self@.base_url,
    {
        self.base_url.as_str()
    }

    pub fn headers(&self) -> (r: &HeaderMap)
        ensures
            header_map_entries(*r) == self@.headers,
    {
        &self.headers
    }

    fn address(&self, path: &str) -> (r: String)
        ensures
            r@ == request_url(self@.base_url, path@),
    {
        if !path.is_empty() && path.get_char(0) == '/' {
            self.base_url.clone().concat(path)
        } else {
            proof {
                reveal_strlit("/");
            }
            self.base_url.clone().concat("/").concat(path)
        }
    }

    /// A GET request for `path` below the base address, with or without a
    /// leading slash.
    pub fn get<'a>(&self, path: &str, params: Option<QueryParams<'a>>) -> (r: Request<'a>)
        ensures
            r.method == Method::Get,
            r.url@ == request_url(self@.base_url, path@),
            r.query == params,
            header_map_entries(r.headers) == self@.headers,
    {
        Request {
            method: Method::Get,
            url: self.address(path),
            query: params,
            headers: header_map_clone(&self.headers),
        }
    }

    /// A POST request for `path` below the base address, with or without a
    /// leading slash.
    pub fn post(&self, path: &str) -> (r: Request<'static>)
        ensures
            r.method == Method::Post,
            r.url@ == request_url(self@.base_url, path@),
            r.query is None,
            header_map_entries(r.headers) == self@.headers,
    {
        Request {
            method: Method::Post,
            url: self.address(path),
            query: None,
            headers: header_map_clone(&self.headers),
        }
    }

    /// What the body of a response with this status has to be read as: the
    /// payload under a success status, an error envelope under any other.
    pub fn body_kind(status: u16) -> (r: BodyKind)
        ensures
            r == (if is_success(status) {
                BodyKind::Payload
            } else {
                BodyKind::ErrorEnvelope
            }),
    {
        if 200 <= status && status < 300 {
            BodyKind::Payload
        } else {
            BodyKind::ErrorEnvelope
        }
    }

    /// Turns the body of a response, as read, into the result of the call.
    /// A payload that was read is the result. An envelope that was read
    /// fails the call with those of its errors that the catalog knows, even
    /// where it knows none of them. A body that could not be read fails the
    /// call with the reader's error: no value is ever made up.
    pub fn finish<T>(decoded: Decoded<T>) -> (r: Result<T, RequestError>)
        ensures
            outcome(decoded, r),
    {
        match decoded {
            Decoded::Payload(Ok(value)) => Ok(value),
            Decoded::Payload(Err(e)) => Err(RequestError::DeserError(e)),
            Decoded::ErrorEnvelope(Ok(wire)) => Err(RequestError::Error(ApiErrors::from_wire(&wire))),
            Decoded::ErrorEnvelope(Err(e)) => Err(RequestError::DeserError(e)),
        }
    }
}

} // verus!
