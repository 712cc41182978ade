use super::basic_material_instance::BasicMaterialInstance;
use super::compound_material_instance::CompoundMaterialInstance;
use vstd::prelude::*;

verus! {

/// A sample of a material.
#[derive(Debug)]
pub enum MaterialInstance {
    Basic(BasicMaterialInstance),
    Compound(CompoundMaterialInstance),
}

} // verus!
