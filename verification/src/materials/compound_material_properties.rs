use super::material_manager::MaterialID;
use vstd::prelude::*;

verus! {

/// One of the materials that a compound is mixed from, with the mean and the
/// standard deviation of its share. Both are held as the bit patterns of
/// double-precision numbers.
#[derive(Clone, Copy, Debug, PartialEq, Eq, Structural)]
pub struct ComposingMaterial {
    pub id: MaterialID,
    pub mean: u64,
    pub sd: u64,
}

/// A material that is mixed from others.
#[derive(Debug)]
pub struct CompoundMaterialProperties {
    pub name: String,
    pub composition: Vec<ComposingMaterial>,
}

} // verus!
