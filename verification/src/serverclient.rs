//! The client of one server, and the choice of the connection to reach it
//! by.

use vstd::prelude::*;
use reqwest::header::HeaderMap;
use crate::apiclient::build_default_headers;
use crate::apiclient::default_headers;
use crate::apiclient::ApiClient;
use crate::apiclient::Method;
use crate::apiclient::Request;
use crate::headers::header_map_entries;
use crate::headers::is_header_text;
use crate::headers::is_visible_text;
use crate::headers::HeaderEntries;
use crate::plextvclient::RequestError;
use crate::types::Connection;
use crate::types::MediaContainerRoot;
use crate::types::MediaProvider;
use crate::types::Resource;

verus! {

/// How building or using a server client fails.
#[derive(Debug)]
pub enum ServerClientError {
    NoConnection,
    NoToken,
    RequestError(RequestError),
}

impl ServerClientError {
    pub open spec fn spec_message(self) -> Seq<char> {
        match self {
            ServerClientError::NoConnection => "Could not find usable connection to server"@,
            ServerClientError::NoToken => "No access token provided for server"@,
            ServerClientError::RequestError(_) => "An error occured while performing a request"@,
        }
    }

    /// The human-readable message of this failure.
    pub fn message(&self) -> (m: &'static str)
        ensures
            m@ == self.spec_message(),
    {
        match self {
            ServerClientError::NoConnection => "Could not find usable connection to server",
            ServerClientError::NoToken => "No access token provided for server",
            ServerClientError::RequestError(_) => "An error occured while performing a request",
        }
    }
}

/// No connection of `conns` is local.
pub open spec fn none_local(conns: Seq<Connection>) -> bool {
    forall|j: int| 0 <= j < conns.len() ==> !(#[trigger] conns[j]).local
}

/// Every connection of `conns` is a relay.
pub open spec fn all_relay(conns: Seq<Connection>) -> bool {
    forall|j: int| 0 <= j < conns.len() ==> (#[trigger] conns[j]).relay
}

/// Whether the connection at `i` is the one to use: the first local one;
/// or, where none is local, the first that is no relay; or, where none is
/// local and all are relays, the first of all.
pub open spec fn is_best(conns: Seq<Connection>, i: int) -> bool {
    &&& 0 <= i < conns.len()
    &&& {
        ||| conns[i].local && forall|j: int| 0 <= j < i ==> !(#[trigger] conns[j]).local
        ||| none_local(conns) && !conns[i].relay && forall|j: int|
            0 <= j < i ==> (#[trigger] conns[j]).relay
        ||| none_local(conns) && all_relay(conns) && i == 0
    }
}

/// The place of the connection to use.
pub open spec fn best_index(conns: Seq<Connection>) -> int {
    choose|i: int| is_best(conns, i)
}

/// At most one place is the best.
pub proof fn lemma_best_unique(conns: Seq<Connection>, i: int, j: int)
    requires
        is_best(conns, i),
        is_best(conns, j),
    ensures
        i == j,
{
}

/// Every list that is not empty has a best place, and `best_index` is it.
pub proof fn lemma_best_index(conns: Seq<Connection>, i: int)
    requires
        is_best(conns, i),
    ensures
        best_index(conns) == i,
{
    lemma_best_unique(conns, i, best_index(conns));
}

/// The first place whose connection is local, or the length of the list
/// where there is none.
fn first_local(connections: &[Connection]) -> (i: usize)
    ensures
        i <= connections@.len(),
        i < connections@.len() ==> connections@[i as int].local,
        forall|j: int| 0 <= j < i ==> !(#[trigger] connections@[j]).local,
{
    let mut i: usize = 0;
    while i < connections.len()
        invariant
            i <= connections@.len(),
            forall|j: int| 0 <= j < i ==> !(#[trigger] connections@[j]).local,
        decreases connections@.len() - i,
    {
        if connections[i].local {
            return i;
        }
        i += 1;
    }
    i
}

/// The first place whose connection is no relay, or the length of the list
/// where there is none.
fn first_direct(connections: &[Connection]) -> (i: usize)
    ensures
        i <= connections@.len(),
        i < connections@.len() ==> !connections@[i as int].relay,
        forall|j: int| 0 <= j < i ==> (#[trigger] connections@[j]).relay,
{
    let mut i: usize = 0;
    while i < connections.len()
        invariant
            i <= connections@.len(),
            forall|j: int| 0 <= j < i ==> (#[trigger] connections@[j]).relay,
        decreases connections@.len() - i,
    {
        if !connections[i].relay {
            return i;
        }
        i += 1;
    }
    i
}

pub struct ServerClientView {
    pub token: Seq<char>,
    pub base_url: Seq<char>,
    pub headers: HeaderEntries,
    pub is_relay: bool,
}

/// A client for one server, reached over the connection that was chosen
/// for it, with the server's own token.
#[derive(Debug)]
pub struct ServerClient {
    token: String,
    client: ApiClient,
    is_relay: bool,
}

impl View for ServerClient {
    type V = ServerClientView;

    closed spec fn view(&self) -> ServerClientView {
        ServerClientView {
            token: self.token@,
            base_url: self.client@.base_url,
            headers: self.client@.headers,
            is_relay: self.is_relay,
        }
    }
}

fn create_default_headers(token: &str, client_id: &'static str) -> (m: HeaderMap)
    requires
        is_header_text(token@),
        is_visible_text(client_id@),
    ensures
        header_map_entries(m) == default_headers(client_id@, Some(token@)),
{
    build_default_headers(client_id, Some(token)).unwrap()
}

/// Whether a client can be built for a resource: it has its own token and
/// at least one connection.
pub open spec fn can_build(resource: Resource) -> bool {
    resource.access_token is Some && resource.connections@.len() > 0
}

/// What `ServerClient::new` gives for a resource. The token is asked for
/// first: without one the answer is `NoToken`, whatever the connections
/// are. With a token and no connection it is `NoConnection`. Else it is a
/// client for the best connection, with the resource's token.
pub open spec fn new_outcome(
    resource: Resource,
    client_id: Seq<char>,
    r: Result<ServerClient, ServerClientError>,
) -> bool {
    let conns = resource.connections@;
    match resource.access_token {
        None => r == Err::<ServerClient, ServerClientError>(ServerClientError::NoToken),
        Some(token) => if conns.len() == 0 {
            r == Err::<ServerClient, ServerClientError>(ServerClientError::NoConnection)
        } else {
            r matches Ok(c) && c@ == (ServerClientView {
                token: token@,
                base_url: conns[best_index(conns)].uri@,
                headers: default_headers(client_id, Some(token@)),
                is_relay: conns[best_index(conns)].relay,
            })
        },
    }
}

impl ServerClient {
    /// The place of the connection to use, or nothing for an empty list.
    pub fn best_connection_index(connections: &[Connection]) -> (r: Option<usize>)
        ensures
            r is None <==> connections@.len() == 0,
            r matches Some(i) ==> is_best(connections@, i as int) && i == best_index(connections@),
    {
        if connections.len() == 0 {
            return None;
        }
        let local = first_local(connections);
        let found = if local < connections.len() {
            local
        } else {
            let direct = first_direct(connections);
            if direct < connections.len() {
                direct
            } else {
                0
            }
        };
        proof {
            lemma_best_index(connections@, found as int);
        }
        Some(found)
    }

    /// Picks the connection to use: the first local one in the order
    /// given; else the first that is no relay; else the first relay. Only
    /// an empty list has none.
    pub fn get_best_connection(connections: &[Connection]) -> (r: Result<
        &Connection,
        ServerClientError,
    >)
        ensures
            connections@.len() == 0 ==> r == Err::<&Connection, ServerClientError>(
                ServerClientError::NoConnection,
            ),
            connections@.len() > 0 ==> r == Ok::<&Connection, ServerClientError>(
                &connections@[best_index(connections@)],
            ),
    {
        match Self::best_connection_index(connections) {
            Some(i) => Ok(&connections[i]),
            None => Err(ServerClientError::NoConnection),
        }
    }

    /// A client for the server that `server_resource` describes. It needs
    /// the resource's own token, and fails with `NoToken` where there is
    /// none, whatever the connections are; it needs a connection, and fails
    /// with `NoConnection` where there is a token but no connection. Only
    /// where a client is built do the token and the client's name have to
    /// be fit for a header.
    pub fn new(server_resource: &Resource, client_id: &'static str) -> (r: Result<
        Self,
        ServerClientError,
    >)
        requires
            can_build(*server_resource) ==> is_visible_text(client_id@),
            can_build(*server_resource) ==> is_header_text(server_resource.access_token->Some_0@),
        ensures
            server_resource.access_token is None ==> r == Err::<Self, ServerClientError>(
                ServerClientError::NoToken,
            ),
            server_resource.access_token is Some && server_resource.connections@.len() == 0 ==> r
                == Err::<Self, ServerClientError>(ServerClientError::NoConnection),
            can_build(*server_resource) <==> r is Ok,
            new_outcome(*server_resource, client_id@, r),
    {
        let token = match &server_resource.access_token {
            Some(token) => token,
            None => {
                return Err(ServerClientError::NoToken);
            },
        };
        let conn = match Self::get_best_connection(server_resource.connections.as_slice()) {
            Ok(conn) => conn,
            Err(e) => {
                return Err(e);
            },
        };
        Ok(
            Self {
                token: token.clone(),
                client: ApiClient::new(
                    conn.uri.as_str(),
                    create_default_headers(token.as_str(), client_id),
                ),
                is_relay: conn.relay,
            },
        )
    }

    pub fn token(&self) -> (r: &str)
        ensures
            r@ == self@.token,
    {
        self.token.as_str()
    }

    pub fn client(&self) -> (r: &ApiClient)
        ensures
            r@.base_url == self@.base_url,
            r@.headers == self@.headers,
    {
        &self.client
    }

    /// Whether the server is reached through a relay.
    pub fn is_relay(&self) -> (r: bool)
        ensures
            r == self@.is_relay,
    {
        self.is_relay
    }

    /// The request that lists the server's media providers.
    pub fn get_media_providers(&self) -> (r: Request<'static>)
        ensures
            r.method == Method::Get,
            r.url@ == self@.base_url + "/media/providers"@,
            r.query is None,
            header_map_entries(r.headers) == self@.headers,
    {
        proof {
            reveal_strlit("/media/providers");
        }
        self.client.get("/media/providers", None)
    }

    /// The media providers in the answer to that request, or the failure
    /// of the call as this client's own error.
    pub fn media_providers(answer: Result<MediaContainerRoot, RequestError>) -> (r: Result<
        Vec<MediaProvider>,
        ServerClientError,
    >)
        ensures
            answer matches Ok(root) ==> r == Ok::<Vec<MediaProvider>, ServerClientError>(
                root.media_container.media_provider,
            ),
            answer matches Err(e) ==> r == Err::<Vec<MediaProvider>, ServerClientError>(
                ServerClientError::RequestError(e),
            ),
    {
        match answer {
            Ok(root) => Ok(root.media_container.media_provider),
            Err(err) => Err(ServerClientError::RequestError(err)),
        }
    }
}

} // verus!
