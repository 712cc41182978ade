use super::energy::Energy;
use super::factors::{
    divisible, fits, lemma_quotient_fits, quotient, whole, UnitT, MICROJOULES, MILLIGRAM,
};
use super::mass::Mass;
use core::cmp::Ordering;
use vstd::prelude::*;
use vstd::std_specs::ops::{AddSpecImpl, SubSpecImpl};

verus! {

/// A specific heat capacity, held as the energy that warms a sample by one
/// kelvin and the mass of the sample.
#[derive(PartialEq, Eq, Structural, Clone, Copy, Debug, Default)]
pub struct HeatCapacity {
    pub energy: Energy,
    pub mass: Mass,
}

impl HeatCapacity {
    /// The whole microjoules of energy per milligram of mass, by which heat
    /// capacities are ordered.
    pub open spec fn microjoules_per_milligram(self) -> int {
        quotient(
            whole(self.energy.microjoules(), MICROJOULES),
            whole(self.mass.micrograms(), MILLIGRAM),
        )
    }

    /// Whether the machine can divide the energy by the mass: there is at
    /// least one whole milligram of mass, and the quotient can be stored.
    pub open spec fn comparable(self) -> bool {
        divisible(
            whole(self.energy.microjoules(), MICROJOULES),
            whole(self.mass.micrograms(), MILLIGRAM),
        )
    }

    /// Orders two heat capacities by their whole microjoules per milligram.
    pub fn cmp(&self, other: &Self) -> (order: Ordering)
        requires
            self.comparable(),
            other.comparable(),
        ensures
            order == Ordering::Less <==> self.microjoules_per_milligram()
                < other.microjoules_per_milligram(),
            order == Ordering::Equal <==> self.microjoules_per_milligram()
                == other.microjoules_per_milligram(),
            order == Ordering::Greater <==> self.microjoules_per_milligram()
                > other.microjoules_per_milligram(),
    {
        proof {
            self.mass.lemma_amount_fits();
            other.mass.lemma_amount_fits();
            self.energy.lemma_amount_fits();
            other.energy.lemma_amount_fits();
            lemma_quotient_fits(
                whole(self.energy.microjoules(), MICROJOULES),
                whole(self.mass.micrograms(), MILLIGRAM),
            );
            lemma_quotient_fits(
                whole(other.energy.microjoules(), MICROJOULES),
                whole(other.mass.micrograms(), MILLIGRAM),
            );
        }
        let d1: UnitT = self.energy.as_microjoules() / self.mass.as_milligrams();
        let d2: UnitT = other.energy.as_microjoules() / other.mass.as_milligrams();
        if d1 < d2 {
            Ordering::Less
        } else if d1 == d2 {
            Ordering::Equal
        } else {
            Ordering::Greater
        }
    }

    /// The same order as `cmp`, which is total.
    pub fn partial_cmp(&self, other: &Self) -> (order: Option<Ordering>)
        requires
            self.comparable(),
            other.comparable(),
        ensures
            order == Some(Ordering::Less) <==> self.microjoules_per_milligram()
                < other.microjoules_per_milligram(),
            order == Some(Ordering::Equal) <==> self.microjoules_per_milligram()
                == other.microjoules_per_milligram(),
            order == Some(Ordering::Greater) <==> self.microjoules_per_milligram()
                > other.microjoules_per_milligram(),
    {
        Some(self.cmp(other))
    }
}

impl core::ops::Add for HeatCapacity {
    type Output = HeatCapacity;

    fn add(self, rhs: HeatCapacity) -> (sum: HeatCapacity)
        ensures
            sum.energy.microjoules() == self.energy.microjoules() + rhs.energy.microjoules(),
            sum.mass.micrograms() == self.mass.micrograms() + rhs.mass.micrograms(),
    {
        HeatCapacity { energy: self.energy + rhs.energy, mass: self.mass + rhs.mass }
    }
}

impl AddSpecImpl for HeatCapacity {
    open spec fn obeys_add_spec() -> bool {
        true
    }

    open spec fn add_req(self, rhs: HeatCapacity) -> bool {
        &&& fits(self.energy.microjoules() + rhs.energy.microjoules())
        &&& fits(self.mass.micrograms() + rhs.mass.micrograms())
    }

    open spec fn add_spec(self, rhs: HeatCapacity) -> HeatCapacity {
        HeatCapacity {
            energy: Energy::of_microjoules(self.energy.microjoules() + rhs.energy.microjoules()),
            mass: Mass::of_micrograms(self.mass.micrograms() + rhs.mass.micrograms()),
        }
    }
}

impl core::ops::Sub for HeatCapacity {
    type Output = HeatCapacity;

    fn sub(self, rhs: HeatCapacity) -> (difference: HeatCapacity)
        ensures
            difference.energy.microjoules() == self.energy.microjoules()
                - rhs.energy.microjoules(),
            difference.mass.micrograms() == self.mass.micrograms() - rhs.mass.micrograms(),
    {
        HeatCapacity { energy: self.energy - rhs.energy, mass: self.mass - rhs.mass }
    }
}

impl SubSpecImpl for HeatCapacity {
    open spec fn obeys_sub_spec() -> bool {
        true
    }

    open spec fn sub_req(self, rhs: HeatCapacity) -> bool {
        &&& fits(self.energy.microjoules() - rhs.energy.microjoules())
        &&& fits(self.mass.micrograms() - rhs.mass.micrograms())
    }

    open spec fn sub_spec(self, rhs: HeatCapacity) -> HeatCapacity {
        HeatCapacity {
            energy: Energy::of_microjoules(self.energy.microjoules() - rhs.energy.microjoules()),
            mass: Mass::of_micrograms(self.mass.micrograms() - rhs.mass.micrograms()),
        }
    }
}

} // verus!
