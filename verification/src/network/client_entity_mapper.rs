use super::events::Entity;
use super::identity_map::{
    has_value, lemma_insert_keeps_one_to_one, lemma_remove_keeps_one_to_one, lookup, one_to_one,
    IdentityMap,
};
use vstd::prelude::*;

verus! {

/// Marks an entity of the server's world as the avatar of a client.
#[derive(Clone, Copy, Debug, PartialEq, Eq, Structural)]
pub struct ClientMapping {
    pub id: u64,
}

/// The server's identity map: for each connected client, the entity that
/// stands for the client in the server's world.
pub struct ClientEntityMapper {
    pub clients: IdentityMap,
}

/// The entity of the given bits, where there are any.
pub open spec fn entity_of(bits: Option<u64>) -> Option<Entity> {
    match bits {
        Some(bits) => Some(Entity(bits)),
        None => None,
    }
}

impl View for ClientEntityMapper {
    type V = Map<u64, u64>;

    /// Each mapped client's identifier, with the bits of the client's entity.
    open spec fn view(&self) -> Map<u64, u64> {
        self.clients@
    }
}

impl ClientEntityMapper {
    /// A mapper that knows no client.
    pub fn new() -> (mapper: Self)
        ensures
            mapper@ == Map::<u64, u64>::empty(),
    {
        ClientEntityMapper { clients: IdentityMap::new() }
    }

    /// The entity of a client. A client without one is no error.
    pub fn map_client(&self, client: u64) -> (entity: Option<Entity>)
        ensures
            entity == entity_of(lookup(self@, client)),
    {
        match self.clients.get(client) {
            Some(bits) => Some(Entity::from_bits(bits)),
            None => None,
        }
    }

    /// Maps a client to an entity, in place of the entity that it had, which
    /// is returned. Where no two clients shared an entity before and the
    /// entity is no other client's, no two clients share an entity after.
    pub fn insert(&mut self, client: u64, entity: Entity) -> (previous: Option<Entity>)
        ensures
            final(self)@ == old(self)@.insert(client, entity.0),
            previous == entity_of(lookup(old(self)@, client)),
            one_to_one(old(self)@) && !has_value(old(self)@.remove(client), entity.0)
                ==> one_to_one(final(self)@),
    {
        proof {
            if one_to_one(self@) && !has_value(self@.remove(client), entity.0) {
                lemma_insert_keeps_one_to_one(self@, client, entity.0);
            }
        }
        match self.clients.insert(client, entity.to_bits()) {
            Some(bits) => Some(Entity::from_bits(bits)),
            None => None,
        }
    }

    /// Forgets a client and returns the entity that it had. Where no two
    /// clients shared an entity before, none do after.
    pub fn remove(&mut self, client: u64) -> (removed: Option<Entity>)
        ensures
            final(self)@ == old(self)@.remove(client),
            removed == entity_of(lookup(old(self)@, client)),
            one_to_one(old(self)@) ==> one_to_one(final(self)@),
    {
        proof {
            if one_to_one(self@) {
                lemma_remove_keeps_one_to_one(self@, client);
            }
        }
        match self.clients.remove(client) {
            Some(bits) => Some(Entity::from_bits(bits)),
            None => None,
        }
    }

    /// The number of clients that have an entity.
    pub fn len(&self) -> (count: usize)
        ensures
            self@.dom().finite(),
            count == self@.len(),
    {
        self.clients.len()
    }
}

} // verus!
