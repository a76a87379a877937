//! The entries of the menu.

use vstd::prelude::*;
use crate::headers::is_header_text;
use crate::headers::is_header_value;
use crate::headers::is_visible_text;
use crate::serverclient::new_outcome;
use crate::serverclient::ServerClient;
use crate::types::Resource;
use crate::types::Service;

verus! {

/// A server in the menu: the resource that describes it and the client
/// that talks to it.
#[derive(Debug)]
pub struct ServerItem {
    pub resource: Resource,
    pub client: ServerClient,
}

/// A library in the menu.
#[derive(Debug)]
pub struct LibraryItem {}

/// One entry of the menu. The menu is a list of these, and the place of an
/// entry in the list is the number by which it is picked.
#[derive(Debug)]
pub enum Item {
    Server(ServerItem),
    Library(LibraryItem),
}

impl ServerItem {
    pub fn new(resource: Resource, client: ServerClient) -> (r: Self)
        ensures
            r.resource == resource,
            r.client == client,
    {
        Self { resource, client }
    }
}

/// Whether a resource is a server that a client can be built for: it
/// provides the server capability, has a connection, and has a token that
/// can be sent.
pub open spec fn is_usable_server(resource: Resource) -> bool {
    &&& resource.provides@.contains(Service::Server)
    &&& resource.connections@.len() > 0
    &&& resource.access_token matches Some(t) && is_header_text(t@)
}

/// The usable servers among `resources`, in the order given.
pub open spec fn usable_servers(resources: Seq<Resource>) -> Seq<Resource>
    decreases resources.len(),
{
    if resources.len() == 0 {
        Seq::empty()
    } else {
        let front = usable_servers(resources.drop_last());
        if is_usable_server(resources.last()) {
            front.push(resources.last())
        } else {
            front
        }
    }
}

/// Whether `item` is the menu entry of the server `resource`.
pub open spec fn is_item_of(item: Item, resource: Resource, client_id: Seq<char>) -> bool {
    item matches Item::Server(s) && s.resource == resource && new_outcome(
        resource,
        client_id,
        Ok(s.client),
    )
}

/// The entry that the number `index` picks, where the menu has one there.
pub fn item_at(items: &Vec<Item>, index: i32) -> (r: Option<&Item>)
    ensures
        r is Some <==> 0 <= index < items@.len(),
        r matches Some(item) ==> *item == items@[index as int],
{
    if index < 0 {
        return None;
    }
    let i = index as usize;
    if i < items.len() {
        Some(&items[i])
    } else {
        None
    }
}

/// Whether a resource provides the server capability.
pub fn provides_server(resource: &Resource) -> (r: bool)
    ensures
        r == resource.provides@.contains(Service::Server),
{
    let mut i: usize = 0;
    while i < resource.provides.len()
        invariant
            i <= resource.provides.len(),
            forall|j: int| 0 <= j < i ==> resource.provides@[j] != Service::Server,
        decreases resource.provides.len() - i,
    {
        if resource.provides[i] == Service::Server {
            return true;
        }
        i += 1;
    }
    false
}

/// Where one resource of a listing is a usable server, the listing has
/// usable servers.
pub proof fn lemma_usable_server_counts(resources: Seq<Resource>, i: int)
    requires
        0 <= i < resources.len(),
        is_usable_server(resources[i]),
    ensures
        usable_servers(resources).len() > 0,
    decreases resources.len(),
{
    if i < resources.len() - 1 {
        lemma_usable_server_counts(resources.drop_last(), i);
    }
}

/// The menu entries for a listing of resources: one for each server that a
/// client can be built for, in the order of the listing. A resource that
/// is no server, or for which no client can be built, is left out, and the
/// others stay. The client's name has to be fit for a header only where the
/// listing holds a server to build a client for.
pub fn server_items(resources: Vec<Resource>, client_id: &'static str) -> (items: Vec<Item>)
    requires
        usable_servers(resources@).len() > 0 ==> is_visible_text(client_id@),
    ensures
        items@.len() == usable_servers(resources@).len(),
        forall|k: int|
            0 <= k < items@.len() ==> is_item_of(
                #[trigger] items@[k],
                usable_servers(resources@)[k],
                client_id@,
            ),
{
    let mut items: Vec<Item> = Vec::new();
    let ghost all = resources@;
    for resource in it: resources.into_iter()
        invariant
            it.seq() == all,
            usable_servers(all).len() > 0 ==> is_visible_text(client_id@),
            items@.len() == usable_servers(all.take(it.index() as int)).len(),
            forall|k: int|
                0 <= k < items@.len() ==> is_item_of(
                    #[trigger] items@[k],
                    usable_servers(all.take(it.index() as int))[k],
                    client_id@,
                ),
    {
        proof {
            let next = all.take(it.index() + 1);
            assert(next.drop_last() == all.take(it.index() as int));
        }
        let sendable = match &resource.access_token {
            Some(token) => is_header_value(token.as_str()),
            None => false,
        };
        if provides_server(&resource) && sendable {
            proof {
                if resource.connections@.len() > 0 {
                    lemma_usable_server_counts(all, it.index() as int);
                }
            }
            match ServerClient::new(&resource, client_id) {
                Ok(client) => {
                    items.push(Item::Server(ServerItem::new(resource, client)));
                },
                Err(_) => {},
            }
        }
    }
    assert(all.take(all.len() as int) == all);
    items
}

} // verus!
