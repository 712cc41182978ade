use super::material_manager::MaterialID;
use crate::units::density::{total_cubic_millimetres, total_micrograms};
use crate::units::factors::fits;
use crate::units::{Density, UnitT};
use vstd::prelude::*;

verus! {

/// A sample of a compound material, with the share of each of the materials
/// that it is mixed from and the density that follows. A share is held as
/// the bit pattern of a single-precision number.
#[derive(Debug)]
pub struct CompoundMaterialInstance {
    pub properties: MaterialID,
    pub ratios: Vec<u32>,
    pub density: Density,
}

impl CompoundMaterialInstance {
    /// A sample of the material `properties` with the given shares. `parts`
    /// holds, for each basic material of the mix, its density with the mass
    /// cut down to its share, and `components` is the number of materials in
    /// the mix.
    pub fn new(
        properties: MaterialID,
        ratios: Vec<u32>,
        parts: &Vec<Density>,
        components: usize,
    ) -> (instance: Self)
        requires
            density_defined(parts@, components),
        ensures
            instance.properties == properties,
            instance.ratios == ratios,
            instance.density.mass.micrograms() == total_micrograms(parts@, parts@.len() as int),
            instance.density.volume.cubic_millimetres() == total_cubic_millimetres(
                parts@,
                parts@.len() as int,
            ) * components,
    {
        let density = calculate_compound_density(parts, components);
        Self { properties, ratios, density }
    }
}

/// Whether the density of a mix of the given parts can be computed: the
/// masses and the volumes can be added up, the number of components can be
/// stored as a quantity, and the volume can be spread.
pub open spec fn density_defined(parts: Seq<Density>, components: usize) -> bool {
    &&& forall|n: int| 0 <= n <= parts.len() ==> fits(#[trigger] total_micrograms(parts, n))
    &&& forall|n: int| 0 <= n <= parts.len() ==> fits(#[trigger] total_cubic_millimetres(parts, n))
    &&& fits(total_cubic_millimetres(parts, parts.len() as int) * components)
    &&& components <= i64::MAX
}

/// The density of a mix: the parts' masses over the parts' volumes, spread
/// over as many times the volume as the mix has components.
pub fn calculate_compound_density(parts: &Vec<Density>, components: usize) -> (density: Density)
    requires
        density_defined(parts@, components),
    ensures
        density.mass.micrograms() == total_micrograms(parts@, parts@.len() as int),
        density.volume.cubic_millimetres() == total_cubic_millimetres(parts@, parts@.len() as int)
            * components,
{
    let total_density = Density::sum(parts);
    total_density / (components as UnitT)
}

} // verus!
