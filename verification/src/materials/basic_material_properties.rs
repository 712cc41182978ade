use super::thermal_properties::ThermalProperties;
use crate::units::Density;
use vstd::prelude::*;

verus! {

/// A material that is made of nothing but itself.
#[derive(Debug)]
pub struct BasicMaterialProperties {
    pub name: String,
    pub density: Density,
    pub thermal_properties: ThermalProperties,
}

} // verus!
