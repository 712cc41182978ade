use super::material_manager::MaterialID;
use vstd::prelude::*;

verus! {

/// A sample of a basic material: it is all that its material says.
#[derive(Clone, Copy, Debug, PartialEq, Eq, Structural)]
pub struct BasicMaterialInstance(pub MaterialID);

} // verus!
