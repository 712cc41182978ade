use super::basic_material_properties::BasicMaterialProperties;
use super::compound_material_properties::CompoundMaterialProperties;
use vstd::prelude::*;

verus! {

/// What is known of a material.
#[derive(Debug)]
pub enum MaterialProperties {
    Basic(BasicMaterialProperties),
    Compound(CompoundMaterialProperties),
}

impl MaterialProperties {
    /// The name of the material.
    pub open spec fn name(&self) -> Seq<char> {
        match self {
            MaterialProperties::Basic(material) => material.name@,
            MaterialProperties::Compound(material) => material.name@,
        }
    }
}

} // verus!
