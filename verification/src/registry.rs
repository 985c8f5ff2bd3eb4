//! The clients that are connected to the server.

use std::collections::HashMap;
use vstd::prelude::*;
use crate::ident;

verus! {

/// A client that is connected.
#[derive(Debug)]
pub struct ConnectedClient {
    pub id: u128,
}

/// The connected clients once `id` has joined them.
pub open spec fn with_client(
    clients: Map<u128, ConnectedClient>,
    id: u128,
) -> Map<u128, ConnectedClient> {
    clients.insert(id, ConnectedClient { id })
}

/// The connected clients, each filed under its id. The view is that filing.
#[derive(Debug)]
pub struct ClientRegistry {
    clients: HashMap<u128, ConnectedClient>,
}

impl View for ClientRegistry {
    type V = Map<u128, ConnectedClient>;

    closed spec fn view(&self) -> Map<u128, ConnectedClient> {
        self.clients@
    }
}

/// Whether every client is filed under its own id, and there are finitely many.
pub open spec fn well_filed(clients: Map<u128, ConnectedClient>) -> bool {
    &&& clients.dom().finite()
    &&& forall|id: u128| #[trigger] clients.contains_key(id) ==> clients[id].id == id
}

impl Default for ClientRegistry {
    /// A registry without clients.
    fn default() -> (registry: Self)
        ensures
            registry@ == Map::<u128, ConnectedClient>::empty(),
            registry.wf(),
    {
        ClientRegistry { clients: HashMap::new() }
    }
}

impl ClientRegistry {
    pub open spec fn wf(&self) -> bool {
        well_filed(self@)
    }

    /// Draws an id for a client that has just connected and files the client
    /// under it. Where the id was not in use, the client is one more.
    pub fn enroll(&mut self) -> (id: u128)
        ensures
            ident::drawn(id),
            ident::is_random_id(id),
            final(self)@ == with_client(old(self)@, id),
            old(self).wf() ==> final(self).wf(),
            old(self).wf() && !old(self)@.contains_key(id) ==> final(self)@.len()
                == old(self)@.len() + 1,
    {
        let id: u128 = ident::new_id();
        self.insert(id);
        id
    }

    /// Files a client under `id`; a client that was there before is replaced.
    pub fn insert(&mut self, id: u128)
        ensures
            final(self)@ == with_client(old(self)@, id),
            old(self).wf() ==> final(self).wf(),
    {
        self.clients.insert(id, ConnectedClient { id });
    }

    /// Takes out the client under `id`, if there is one.
    pub fn remove(&mut self, id: u128)
        ensures
            final(self)@ == old(self)@.remove(id),
            old(self).wf() ==> final(self).wf(),
    {
        self.clients.remove(&id);
    }

    /// How many clients are connected.
    pub fn len(&self) -> (count: usize)
        ensures
            count == self@.len(),
    {
        self.clients.len()
    }
}

} // verus!
