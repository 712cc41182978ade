use super::client_entity_mapper::entity_of;
use super::events::Entity;
use super::identity_map::{
    has_value, lemma_insert_keeps_one_to_one, lemma_remove_keeps_one_to_one, lookup, one_to_one,
    IdentityMap,
};
use vstd::prelude::*;

verus! {

/// A client's identity map: for each entity of the server's world that the
/// client has heard of, the entity that stands for it in the client's world.
pub struct EntityMapper(pub IdentityMap);

/// The entries after a "create entity" notification for `remote`, for which
/// `local` is at hand: a remote entity that is mapped already keeps its local
/// entity.
pub open spec fn after_create(entries: Map<u64, u64>, remote: Entity, local: Entity) -> Map<
    u64,
    u64,
> {
    if entries.contains_key(remote.0) {
        entries
    } else {
        entries.insert(remote.0, local.0)
    }
}

impl View for EntityMapper {
    type V = Map<u64, u64>;

    /// The bits of each mapped remote entity, with the bits of its local entity.
    open spec fn view(&self) -> Map<u64, u64> {
        self.0@
    }
}

impl EntityMapper {
    /// A mapper that knows no entity.
    pub fn new() -> (mapper: Self)
        ensures
            mapper@ == Map::<u64, u64>::empty(),
    {
        EntityMapper(IdentityMap::new())
    }

    /// The local entity of a remote one. A remote entity without one is no error.
    pub fn get(&self, remote: Entity) -> (local: Option<Entity>)
        ensures
            local == entity_of(lookup(self@, remote.0)),
    {
        match self.0.get(remote.to_bits()) {
            Some(bits) => Some(Entity::from_bits(bits)),
            None => None,
        }
    }

    /// Whether a "create entity" notification for `remote` asks for a new
    /// local entity: it does unless `remote` is mapped already.
    pub fn should_spawn(&self, remote: Entity) -> (needed: bool)
        ensures
            needed == !self@.contains_key(remote.0),
    {
        !self.0.contains_key(remote.to_bits())
    }

    /// Maps `remote` to `local` unless `remote` is mapped already, and says
    /// whether it did. Where it did not, `local` is not in use. Where no two
    /// remote entities shared a local one before and `local` stands for no
    /// remote entity yet, no two share one after.
    pub fn bind(&mut self, remote: Entity, local: Entity) -> (bound: bool)
        ensures
            bound == !old(self)@.contains_key(remote.0),
            final(self)@ == after_create(old(self)@, remote, local),
            one_to_one(old(self)@) && !has_value(old(self)@, local.0) ==> one_to_one(
                final(self)@,
            ),
    {
        proof {
            if one_to_one(self@) && !has_value(self@, local.0) && !self@.contains_key(remote.0) {
                assert(self@.remove(remote.0) =~= self@);
                lemma_insert_keeps_one_to_one(self@, remote.0, local.0);
            }
        }
        if self.0.contains_key(remote.to_bits()) {
            false
        } else {
            self.0.insert(remote.to_bits(), local.to_bits());
            true
        }
    }

    /// Forgets `remote` on an "entity destroyed" notification and returns the
    /// local entity to destroy. For a remote entity that is not mapped nothing
    /// changes.
    pub fn release(&mut self, remote: Entity) -> (local: Option<Entity>)
        ensures
            final(self)@ == old(self)@.remove(remote.0),
            local == entity_of(lookup(old(self)@, remote.0)),
            one_to_one(old(self)@) ==> one_to_one(final(self)@),
    {
        proof {
            if one_to_one(self@) {
                lemma_remove_keeps_one_to_one(self@, remote.0);
            }
        }
        match self.0.remove(remote.to_bits()) {
            Some(bits) => Some(Entity::from_bits(bits)),
            None => None,
        }
    }

    /// Forgets every entity, as when the connection drops.
    pub fn clear(&mut self)
        ensures
            final(self)@ == Map::<u64, u64>::empty(),
    {
        self.0.clear()
    }

    /// The number of remote entities that are mapped.
    pub fn len(&self) -> (count: usize)
        ensures
            self@.dom().finite(),
            count == self@.len(),
    {
        self.0.len()
    }
}

/// The same "create entity" notification delivered twice leaves what the first
/// delivery left: one local entity for the remote one, whatever is at hand the
/// second time.
pub proof fn lemma_create_is_idempotent(
    entries: Map<u64, u64>,
    remote: Entity,
    first: Entity,
    second: Entity,
)
    ensures
        after_create(after_create(entries, remote, first), remote, second) == after_create(
            entries,
            remote,
            first,
        ),
        after_create(entries, remote, first).contains_key(remote.0),
{
}

/// A notification for a remote entity adds at most one entry, and none where
/// the remote entity is mapped already.
pub proof fn lemma_create_adds_at_most_one(entries: Map<u64, u64>, remote: Entity, local: Entity)
    requires
        entries.dom().finite(),
    ensures
        after_create(entries, remote, local).dom().finite(),
        entries.contains_key(remote.0) ==> after_create(entries, remote, local).len()
            == entries.len(),
        !entries.contains_key(remote.0) ==> after_create(entries, remote, local).len()
            == entries.len() + 1,
{
}

} // verus!
