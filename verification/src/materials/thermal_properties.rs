use crate::units::{HeatCapacity, Temperature};
use vstd::prelude::*;

verus! {

/// How a material takes up heat, and where it melts and boils.
#[derive(Clone, Copy, Debug, PartialEq, Eq, Structural)]
pub struct ThermalProperties {
    pub heat_capacity: HeatCapacity,
    pub melting_point: Temperature,
    pub boiling_point: Temperature,
}

} // verus!
