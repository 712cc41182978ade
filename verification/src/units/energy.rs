use super::factors::{
    divisible, fits, lemma_quotient_fits, quotient, JOULES, KILOJOULES, MEGAJOULES, MICROJOULES,
    MILLIJOULES, UnitT,
};
use vstd::prelude::*;
use vstd::std_specs::ops::{AddSpecImpl, DivSpecImpl, SubSpecImpl};

verus! {

/// An amount of energy, held as a whole number of microjoules.
#[derive(PartialEq, Eq, Structural, PartialOrd, Ord, Clone, Copy, Debug, Default)]
pub struct Energy(UnitT);

impl Energy {
    /// The amount in microjoules.
    pub closed spec fn microjoules(self) -> int {
        self.0 as int
    }

    /// The energy of the given number of microjoules.
    pub closed spec fn of_microjoules(amount: int) -> Energy {
        Energy(amount as UnitT)
    }

    /// The amount of every energy can be stored.
    pub proof fn lemma_amount_fits(self)
        ensures
            fits(self.microjoules()),
    {
    }

    /// The energy of `value` microjoules.
    pub fn from_microjoules(value: UnitT) -> (energy: Self)
        requires
            fits(value * MICROJOULES),
        ensures
            energy.microjoules() == value * MICROJOULES,
            energy == Self::of_microjoules(value * MICROJOULES),
    {
        Self(value * MICROJOULES)
    }

    /// The energy of `value` millijoules.
    pub fn from_millijoules(value: UnitT) -> (energy: Self)
        requires
            fits(value * MILLIJOULES),
        ensures
            energy.microjoules() == value * MILLIJOULES,
            energy == Self::of_microjoules(value * MILLIJOULES),
    {
        Self(value * MILLIJOULES)
    }

    /// The energy of `value` joules.
    pub fn from_joules(value: UnitT) -> (energy: Self)
        requires
            fits(value * JOULES),
        ensures
            energy.microjoules() == value * JOULES,
            energy == Self::of_microjoules(value * JOULES),
    {
        Self(value * JOULES)
    }

    /// The energy of `value` kilojoules.
    pub fn from_kilojoules(value: UnitT) -> (energy: Self)
        requires
            fits(value * KILOJOULES),
        ensures
            energy.microjoules() == value * KILOJOULES,
            energy == Self::of_microjoules(value * KILOJOULES),
    {
        Self(value * KILOJOULES)
    }

    /// The energy of `value` megajoules.
    pub fn from_megajoules(value: UnitT) -> (energy: Self)
        requires
            fits(value * MEGAJOULES),
        ensures
            energy.microjoules() == value * MEGAJOULES,
            energy == Self::of_microjoules(value * MEGAJOULES),
    {
        Self(value * MEGAJOULES)
    }

    /// The whole microjoules in this energy, rounded toward zero.
    pub fn as_microjoules(&self) -> (value: UnitT)
        ensures
            value == quotient(self.microjoules(), MICROJOULES as int),
    {
        self.0 / MICROJOULES
    }

    /// The whole millijoules in this energy, rounded toward zero.
    pub fn as_millijoules(&self) -> (value: UnitT)
        ensures
            value == quotient(self.microjoules(), MILLIJOULES as int),
    {
        self.0 / MILLIJOULES
    }

    /// The whole joules in this energy, rounded toward zero.
    pub fn as_joules(&self) -> (value: UnitT)
        ensures
            value == quotient(self.microjoules(), JOULES as int),
    {
        self.0 / JOULES
    }

    /// The whole kilojoules in this energy, rounded toward zero.
    pub fn as_kilojoules(&self) -> (value: UnitT)
        ensures
            value == quotient(self.microjoules(), KILOJOULES as int),
    {
        self.0 / KILOJOULES
    }

    /// The whole megajoules in this energy, rounded toward zero.
    pub fn as_megajoules(&self) -> (value: UnitT)
        ensures
            value == quotient(self.microjoules(), MEGAJOULES as int),
    {
        self.0 / MEGAJOULES
    }
}

impl core::ops::Add for Energy {
    type Output = Energy;

    fn add(self, rhs: Energy) -> (sum: Energy)
        ensures
            sum.microjoules() == self.microjoules() + rhs.microjoules(),
    {
        Energy(self.0 + rhs.0)
    }
}

impl AddSpecImpl for Energy {
    open spec fn obeys_add_spec() -> bool {
        true
    }

    open spec fn add_req(self, rhs: Energy) -> bool {
        fits(self.microjoules() + rhs.microjoules())
    }

    open spec fn add_spec(self, rhs: Energy) -> Energy {
        Energy::of_microjoules(self.microjoules() + rhs.microjoules())
    }
}

impl core::ops::Sub for Energy {
    type Output = Energy;

    fn sub(self, rhs: Energy) -> (difference: Energy)
        ensures
            difference.microjoules() == self.microjoules() - rhs.microjoules(),
    {
        Energy(self.0 - rhs.0)
    }
}

impl SubSpecImpl for Energy {
    open spec fn obeys_sub_spec() -> bool {
        true
    }

    open spec fn sub_req(self, rhs: Energy) -> bool {
        fits(self.microjoules() - rhs.microjoules())
    }

    open spec fn sub_spec(self, rhs: Energy) -> Energy {
        Energy::of_microjoules(self.microjoules() - rhs.microjoules())
    }
}

impl core::ops::Div for Energy {
    type Output = UnitT;

    fn div(self, rhs: Energy) -> (ratio: UnitT)
        ensures
            ratio == quotient(self.microjoules(), rhs.microjoules()),
    {
        proof {
            lemma_quotient_fits(self.microjoules(), rhs.microjoules());
        }
        self.0 / rhs.0
    }
}

impl DivSpecImpl for Energy {
    open spec fn obeys_div_spec() -> bool {
        true
    }

    open spec fn div_req(self, rhs: Energy) -> bool {
        divisible(self.microjoules(), rhs.microjoules())
    }

    open spec fn div_spec(self, rhs: Energy) -> UnitT {
        quotient(self.microjoules(), rhs.microjoules()) as UnitT
    }
}

} // verus!
