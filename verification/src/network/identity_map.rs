use vstd::prelude::*;

verus! {

/// The hash map that an identity map keeps its entries in: the map of
/// `bevy::utils`, which is hashbrown's with a hasher that is the same in every
/// run. What it holds is spoken of through `table_entries`.
#[verifier::external_body]
pub struct Table {
    entries: bevy::utils::HashMap<u64, u64>,
}

/// The entries of a hash map: each key that it holds, with the key's value.
pub uninterp spec fn table_entries(table: Table) -> Map<u64, u64>;

/// A table from identifiers that a remote peer uses to the local entities
/// that stand for them. An entity is held by its bits.
pub struct IdentityMap {
    table: Table,
}

/// The entries of an empty table.
pub open spec fn no_entries() -> Map<u64, u64> {
    Map::empty()
}

/// What a table of the given entries has for a key.
pub open spec fn lookup(entries: Map<u64, u64>, key: u64) -> Option<u64> {
    if entries.contains_key(key) {
        Some(entries[key])
    } else {
        None
    }
}

/// Whether no two keys share a value.
pub open spec fn one_to_one(entries: Map<u64, u64>) -> bool {
    forall|a: u64, b: u64|
        entries.contains_key(a) && entries.contains_key(b) && entries[a] == entries[b] ==> a == b
}

/// Whether some key has the given value.
pub open spec fn has_value(entries: Map<u64, u64>, value: u64) -> bool {
    exists|key: u64| entries.contains_key(key) && entries[key] == value
}

/// Mapping a key to a value that no other key has keeps a table one-to-one.
pub proof fn lemma_insert_keeps_one_to_one(entries: Map<u64, u64>, key: u64, value: u64)
    requires
        one_to_one(entries),
        !has_value(entries.remove(key), value),
    ensures
        one_to_one(entries.insert(key, value)),
{
    let after = entries.insert(key, value);
    assert forall|a: u64, b: u64|
        after.contains_key(a) && after.contains_key(b) && after[a] == after[b] implies a == b by {
        if a != key && b != key {
        } else if a == key && b != key {
            assert(entries.remove(key).contains_key(b) && entries.remove(key)[b] == value);
        } else if b == key && a != key {
            assert(entries.remove(key).contains_key(a) && entries.remove(key)[a] == value);
        }
    }
}

/// Forgetting a key keeps a table one-to-one.
pub proof fn lemma_remove_keeps_one_to_one(entries: Map<u64, u64>, key: u64)
    requires
        one_to_one(entries),
    ensures
        one_to_one(entries.remove(key)),
{
}

/// Makes a map with `HashMap::default`: it has no entries.
#[verifier::external_body]
fn table_new() -> (table: Table)
    ensures
        table_entries(table) == no_entries(),
{
    Table { entries: bevy::utils::HashMap::default() }
}

/// Calls `HashMap::insert`: afterwards the key has the value and every other
/// key is as before; the result is what the key had before. The call does
/// not unwind: hashing an integer cannot panic, and a table too large to
/// index does not fit in memory.
#[verifier::external_body]
fn table_insert(table: &mut Table, key: u64, value: u64) -> (previous: Option<u64>)
    ensures
        table_entries(*final(table)) == table_entries(*old(table)).insert(key, value),
        previous == lookup(table_entries(*old(table)), key),
    no_unwind
{
    table.entries.insert(key, value)
}

/// Calls `HashMap::get` and copies the value out: the result is what the key has.
#[verifier::external_body]
fn table_get(table: &Table, key: u64) -> (found: Option<u64>)
    ensures
        found == lookup(table_entries(*table), key),
{
    table.entries.get(&key).copied()
}

/// Calls `HashMap::remove`: afterwards the key has nothing and every other key
/// is as before; the result is what the key had before. The call does not
/// unwind.
#[verifier::external_body]
fn table_remove(table: &mut Table, key: u64) -> (removed: Option<u64>)
    ensures
        table_entries(*final(table)) == table_entries(*old(table)).remove(key),
        removed == lookup(table_entries(*old(table)), key),
    no_unwind
{
    table.entries.remove(&key)
}

/// Calls `HashMap::len`: the result is the number of entries.
#[verifier::external_body]
fn table_len(table: &Table) -> (count: usize)
    ensures
        count == table_entries(*table).len(),
{
    table.entries.len()
}

/// Calls `HashMap::clear`: afterwards there are no entries. The call does
/// not unwind.
#[verifier::external_body]
fn table_clear(table: &mut Table)
    ensures
        table_entries(*final(table)) == no_entries(),
    no_unwind
{
    table.entries.clear()
}

impl View for IdentityMap {
    type V = Map<u64, u64>;

    closed spec fn view(&self) -> Map<u64, u64> {
        table_entries(self.table)
    }
}

impl IdentityMap {
    /// A table has finitely many entries.
    #[verifier::type_invariant]
    spec fn finite(self) -> bool {
        table_entries(self.table).dom().finite()
    }

    /// A table without entries.
    pub fn new() -> (map: Self)
        ensures
            map@ == Map::<u64, u64>::empty(),
    {
        IdentityMap { table: table_new() }
    }

    /// Maps `key` to `value`, in place of what it was mapped to, which is returned.
    pub fn insert(&mut self, key: u64, value: u64) -> (previous: Option<u64>)
        ensures
            final(self)@ == old(self)@.insert(key, value),
            previous == lookup(old(self)@, key),
    {
        proof {
            use_type_invariant(&*self);
        }
        table_insert(&mut self.table, key, value)
    }

    /// What `key` is mapped to. A key that is not mapped is no error.
    pub fn get(&self, key: u64) -> (found: Option<u64>)
        ensures
            found == lookup(self@, key),
    {
        table_get(&self.table, key)
    }

    /// Whether `key` is mapped.
    pub fn contains_key(&self, key: u64) -> (known: bool)
        ensures
            known == self@.contains_key(key),
    {
        table_get(&self.table, key).is_some()
    }

    /// Forgets `key` and returns what it was mapped to.
    pub fn remove(&mut self, key: u64) -> (removed: Option<u64>)
        ensures
            final(self)@ == old(self)@.remove(key),
            removed == lookup(old(self)@, key),
    {
        proof {
            use_type_invariant(&*self);
        }
        table_remove(&mut self.table, key)
    }

    /// The number of keys that are mapped.
    pub fn len(&self) -> (count: usize)
        ensures
            self@.dom().finite(),
            count == self@.len(),
    {
        proof {
            use_type_invariant(self);
        }
        table_len(&self.table)
    }

    /// Whether no key is mapped.
    pub fn is_empty(&self) -> (empty: bool)
        ensures
            empty == (self@ == Map::<u64, u64>::empty()),
    {
        let count = table_len(&self.table);
        proof {
            use_type_invariant(self);
            if count == 0 {
                assert(self@.dom() =~= Set::empty()) by {
                    self@.dom().lemma_len0_is_empty();
                }
                assert(self@ =~= Map::<u64, u64>::empty());
            }
        }
        count == 0
    }

    /// Forgets every key.
    pub fn clear(&mut self)
        ensures
            final(self)@ == Map::<u64, u64>::empty(),
    {
        table_clear(&mut self.table)
    }
}

} // verus!
