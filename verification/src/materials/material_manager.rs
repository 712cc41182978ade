use super::basic_material_instance::BasicMaterialInstance;
use super::material_properties::MaterialProperties;
use std::collections::HashMap;
use vstd::prelude::*;
use vstd::std_specs::iter::IteratorSpec;

verus! {

/// The identifier of a registered material.
#[derive(Default, Hash, PartialEq, Eq, Structural, Clone, Copy, Debug)]
pub struct MaterialID(pub u64);

/// The materials that are known, each under an identifier of its own.
pub struct MaterialManager {
    materials: HashMap<u64, MaterialProperties>,
}

/// Draws an identifier with `rand::thread_rng` and `Rng::gen`. Nothing is
/// known of the number that comes.
#[verifier::external_body]
fn random_id() -> (id: u64) {
    rand::Rng::gen::<u64>(&mut rand::thread_rng())
}

/// The identifiers below the given number.
pub open spec fn ids_below(bound: nat) -> Set<u64> {
    Set::new(|id: u64| id < bound)
}

/// Whether the identifier is free and every smaller one is in use.
pub open spec fn is_least_free(materials: Map<u64, MaterialProperties>, id: u64) -> bool {
    !materials.contains_key(id) && forall|below: u64| below < id ==> materials.contains_key(below)
}

/// There are as many identifiers below a number as the number says.
proof fn lemma_ids_below(bound: nat)
    requires
        bound <= u64::MAX + 1,
    ensures
        ids_below(bound).finite(),
        ids_below(bound).len() == bound,
    decreases bound,
{
    if bound == 0 {
        assert(ids_below(bound) =~= Set::<u64>::empty());
    } else {
        lemma_ids_below((bound - 1) as nat);
        assert(ids_below(bound) =~= ids_below((bound - 1) as nat).insert((bound - 1) as u64));
    }
}

impl View for MaterialManager {
    type V = Map<u64, MaterialProperties>;

    /// The number of each identifier that is in use, with its material.
    closed spec fn view(&self) -> Map<u64, MaterialProperties> {
        self.materials@
    }
}

impl MaterialManager {
    /// A manager that knows no material.
    pub fn new() -> (manager: Self)
        ensures
            manager@ == Map::<u64, MaterialProperties>::empty(),
    {
        MaterialManager { materials: HashMap::new() }
    }

    /// Registers a material under the given identifier, unless the identifier
    /// is in use: then nothing changes and the material is handed back.
    pub fn register_material_as(&mut self, id: MaterialID, material: MaterialProperties) -> (res:
        Result<MaterialID, MaterialProperties>)
        ensures
            old(self)@.contains_key(id.0) ==> final(self)@ == old(self)@ && res == Err::<
                MaterialID,
                MaterialProperties,
            >(material),
            !old(self)@.contains_key(id.0) ==> final(self)@ == old(self)@.insert(id.0, material)
                && res == Ok::<MaterialID, MaterialProperties>(id),
    {
        broadcast use vstd::std_specs::hash::group_hash_axioms;

        if self.materials.contains_key(&id.0) {
            Err(material)
        } else {
            self.materials.insert(id.0, material);
            Ok(id)
        }
    }

    /// The least identifier that is free.
    fn least_free(&self) -> (id: u64)
        ensures
            is_least_free(self@, id),
    {
        broadcast use vstd::std_specs::hash::group_hash_axioms;

        let count = self.materials.len();
        let mut id: u64 = 0;
        loop
            invariant
                count == self@.len(),
                self@.dom().finite(),
                id <= count,
                forall|below: u64| below < id ==> self@.contains_key(below),
            decreases count - id,
        {
            if !self.materials.contains_key(&id) {
                return id;
            }
            proof {
                let taken = ids_below((id + 1) as nat);
                lemma_ids_below((id + 1) as nat);
                assert(taken.subset_of(self@.dom())) by {
                    assert forall|key: u64| taken.contains(key) implies self@.dom().contains(
                        key,
                    ) by {
                        if key < id {
                            assert(self@.contains_key(key));
                        }
                    }
                }
                vstd::set_lib::lemma_len_subset(taken, self@.dom());
            }
            id = id + 1;
        }
    }

    /// An identifier that is free: the given one where that is free, and
    /// else the least free one.
    pub fn free_id(&self, drawn: MaterialID) -> (id: MaterialID)
        ensures
            !self@.contains_key(id.0),
            !self@.contains_key(drawn.0) ==> id == drawn,
            self@.contains_key(drawn.0) ==> is_least_free(self@, id.0),
    {
        broadcast use vstd::std_specs::hash::group_hash_axioms;

        if self.materials.contains_key(&drawn.0) {
            MaterialID(self.least_free())
        } else {
            drawn
        }
    }

    /// Registers a material under an identifier that was free, and returns
    /// the identifier. It is drawn at random; where the draw is in use, it
    /// is the least free identifier instead.
    pub fn register_material(&mut self, material: MaterialProperties) -> (id: MaterialID)
        ensures
            !old(self)@.contains_key(id.0),
            final(self)@ == old(self)@.insert(id.0, material),
    {
        broadcast use vstd::std_specs::hash::group_hash_axioms;

        let id = self.free_id(MaterialID(random_id()));
        self.materials.insert(id.0, material);
        id
    }

    /// The material of an identifier.
    pub fn get_material(&self, id: MaterialID) -> (found: Option<&MaterialProperties>)
        ensures
            found == (if self@.contains_key(id.0) {
                Some(&self@[id.0])
            } else {
                None
            }),
    {
        broadcast use vstd::std_specs::hash::group_hash_axioms;

        self.materials.get(&id.0)
    }

    /// The identifier of a material of the given name. Where several
    /// materials have the name, it is the identifier of one of them.
    pub fn get_material_id(&self, name: &str) -> (found: Option<MaterialID>)
        ensures
            match found {
                Some(id) => self@.contains_key(id.0) && self@[id.0].name() == name@,
                None => forall|key: u64| self@.contains_key(key) ==> self@[key].name() != name@,
            },
    {
        broadcast use vstd::std_specs::hash::group_hash_axioms;

        let wanted = name.to_owned();
        let ghost keys = self.materials.keys().remaining().unref();
        for key in iter: self.materials.keys()
            invariant
                wanted@ == name@,
                iter.seq().unref() == keys,
                keys.to_set() == self@.dom(),
                forall|k: int| 0 <= k < iter.index() ==> self@[#[trigger] keys[k]].name() != name@,
        {
            assert(keys[iter.index()] == *key);
            assert(keys.to_set().contains(*key));
            match self.materials.get(key) {
                Some(MaterialProperties::Basic(material)) => {
                    if material.name == wanted {
                        return Some(MaterialID(*key));
                    }
                },
                Some(MaterialProperties::Compound(material)) => {
                    if material.name == wanted {
                        return Some(MaterialID(*key));
                    }
                },
                None => {},
            }
        }
        proof {
            assert forall|key: u64| self@.contains_key(key) implies self@[key].name()
                != name@ by {
                assert(keys.to_set().contains(key));
                let k = choose|k: int| 0 <= k < keys.len() && keys[k] == key;
                assert(self@[keys[k]].name() != name@);
            }
        }
        None
    }

    /// The identifiers that are in use, each once, in no particular order.
    pub fn ids(&self) -> (ids: Vec<MaterialID>)
        ensures
            ids@.no_duplicates(),
            ids@.len() == self@.len(),
            forall|id: MaterialID| #[trigger] ids@.contains(id) <==> self@.contains_key(id.0),
    {
        broadcast use vstd::std_specs::hash::group_hash_axioms;

        let mut ids: Vec<MaterialID> = Vec::new();
        let ghost keys = self.materials.keys().remaining().unref();
        for key in iter: self.materials.keys()
            invariant
                iter.seq().unref() == keys,
                keys.no_duplicates(),
                keys.to_set() == self@.dom(),
                keys.len() == self@.len(),
                ids@.len() == iter.index(),
                forall|k: int| 0 <= k < iter.index() ==> (#[trigger] ids@[k]).0 == keys[k],
        {
            assert(keys[iter.index()] == *key);
            ids.push(MaterialID(*key));
        }
        proof {
            assert forall|a: int, b: int| 0 <= a < ids@.len() && 0 <= b < ids@.len() && a
                != b implies ids@[a] != ids@[b] by {
                assert(keys[a] != keys[b]);
            }
            assert forall|id: MaterialID| #[trigger] ids@.contains(id) <==> self@.contains_key(
                id.0,
            ) by {
                if ids@.contains(id) {
                    let k = choose|k: int| 0 <= k < ids@.len() && ids@[k] == id;
                    assert(keys[k] == id.0);
                    assert(keys.to_set().contains(id.0));
                }
                if self@.contains_key(id.0) {
                    assert(keys.to_set().contains(id.0));
                    let k = choose|k: int| 0 <= k < keys.len() && keys[k] == id.0;
                    assert(ids@[k] == id);
                }
            }
        }
        ids
    }

    /// A sample of a basic material. For a compound, the shares are drawn
    /// first: then see `CompoundMaterialInstance::new`.
    pub fn generate_material_instance(&self, id: MaterialID) -> (instance: Option<
        BasicMaterialInstance,
    >)
        ensures
            instance == (if self@.contains_key(id.0) && self@[id.0] is Basic {
                Some(BasicMaterialInstance(id))
            } else {
                None
            }),
    {
        match self.get_material(id) {
            Some(MaterialProperties::Basic(_)) => Some(BasicMaterialInstance(id)),
            _ => None,
        }
    }
}

} // verus!
