use super::factors::{
    divisible, fits, lemma_quotient_fits, quotient, GRAM, KILOGRAM, KILOTONNE, MILLIGRAM, TONNE,
    UnitT,
};
use vstd::prelude::*;
use vstd::std_specs::ops::{AddSpecImpl, DivSpecImpl, MulSpecImpl, SubSpecImpl};

verus! {

/// A mass, held as a whole number of micrograms.
#[derive(PartialEq, Eq, Structural, PartialOrd, Ord, Clone, Copy, Debug, Default)]
pub struct Mass(UnitT);

impl Mass {
    /// The amount in micrograms.
    pub closed spec fn micrograms(self) -> int {
        self.0 as int
    }

    /// The mass of the given number of micrograms.
    pub closed spec fn of_micrograms(amount: int) -> Mass {
        Mass(amount as UnitT)
    }

    /// The amount of every mass can be stored.
    pub proof fn lemma_amount_fits(self)
        ensures
            fits(self.micrograms()),
    {
    }

    /// The mass of `value` kilotonnes.
    pub fn from_kilotonnes(value: UnitT) -> (mass: Self)
        requires
            fits(value * KILOTONNE),
        ensures
            mass.micrograms() == value * KILOTONNE,
            mass == Self::of_micrograms(value * KILOTONNE),
    {
        Self(value * KILOTONNE)
    }

    /// The mass of `value` tonnes.
    pub fn from_tonnes(value: UnitT) -> (mass: Self)
        requires
            fits(value * TONNE),
        ensures
            mass.micrograms() == value * TONNE,
            mass == Self::of_micrograms(value * TONNE),
    {
        Self(value * TONNE)
    }

    /// The mass of `value` kilograms.
    pub fn from_kilograms(value: UnitT) -> (mass: Self)
        requires
            fits(value * KILOGRAM),
        ensures
            mass.micrograms() == value * KILOGRAM,
            mass == Self::of_micrograms(value * KILOGRAM),
    {
        Self(value * KILOGRAM)
    }

    /// The mass of `value` grams.
    pub fn from_grams(value: UnitT) -> (mass: Self)
        requires
            fits(value * GRAM),
        ensures
            mass.micrograms() == value * GRAM,
            mass == Self::of_micrograms(value * GRAM),
    {
        Self(value * GRAM)
    }

    /// The mass of `value` milligrams.
    pub fn from_milligrams(value: UnitT) -> (mass: Self)
        requires
            fits(value * MILLIGRAM),
        ensures
            mass.micrograms() == value * MILLIGRAM,
            mass == Self::of_micrograms(value * MILLIGRAM),
    {
        Self(value * MILLIGRAM)
    }

    /// The whole kilotonnes in this mass, rounded toward zero.
    pub fn as_kilotonnes(&self) -> (value: UnitT)
        ensures
            value == quotient(self.micrograms(), KILOTONNE as int),
    {
        self.0 / KILOTONNE
    }

    /// The whole tonnes in this mass, rounded toward zero.
    pub fn as_tonnes(&self) -> (value: UnitT)
        ensures
            value == quotient(self.micrograms(), TONNE as int),
    {
        self.0 / TONNE
    }

    /// The whole kilograms in this mass, rounded toward zero.
    pub fn as_kilograms(&self) -> (value: UnitT)
        ensures
            value == quotient(self.micrograms(), KILOGRAM as int),
    {
        self.0 / KILOGRAM
    }

    /// The whole grams in this mass, rounded toward zero.
    pub fn as_grams(&self) -> (value: UnitT)
        ensures
            value == quotient(self.micrograms(), GRAM as int),
    {
        self.0 / GRAM
    }

    /// The whole milligrams in this mass, rounded toward zero.
    pub fn as_milligrams(&self) -> (value: UnitT)
        ensures
            value == quotient(self.micrograms(), MILLIGRAM as int),
    {
        self.0 / MILLIGRAM
    }

    /// Adds `rhs` to this mass in place.
    pub fn add_assign(&mut self, rhs: Mass)
        requires
            fits(old(self).micrograms() + rhs.micrograms()),
        ensures
            final(self).micrograms() == old(self).micrograms()
                + rhs.micrograms(),
    {
        self.0 = self.0 + rhs.0;
    }

    /// Takes `rhs` from this mass in place.
    pub fn sub_assign(&mut self, rhs: Mass)
        requires
            fits(old(self).micrograms() - rhs.micrograms()),
        ensures
            final(self).micrograms() == old(self).micrograms()
                - rhs.micrograms(),
    {
        self.0 = self.0 - rhs.0;
    }
}

impl core::ops::Add for Mass {
    type Output = Mass;

    fn add(self, rhs: Mass) -> (sum: Mass)
        ensures
            sum.micrograms() == self.micrograms() + rhs.micrograms(),
    {
        Mass(self.0 + rhs.0)
    }
}

impl AddSpecImpl for Mass {
    open spec fn obeys_add_spec() -> bool {
        true
    }

    open spec fn add_req(self, rhs: Mass) -> bool {
        fits(self.micrograms() + rhs.micrograms())
    }

    open spec fn add_spec(self, rhs: Mass) -> Mass {
        Mass::of_micrograms(self.micrograms() + rhs.micrograms())
    }
}

impl core::ops::Sub for Mass {
    type Output = Mass;

    fn sub(self, rhs: Mass) -> (difference: Mass)
        ensures
            difference.micrograms() == self.micrograms() - rhs.micrograms(),
    {
        Mass(self.0 - rhs.0)
    }
}

impl SubSpecImpl for Mass {
    open spec fn obeys_sub_spec() -> bool {
        true
    }

    open spec fn sub_req(self, rhs: Mass) -> bool {
        fits(self.micrograms() - rhs.micrograms())
    }

    open spec fn sub_spec(self, rhs: Mass) -> Mass {
        Mass::of_micrograms(self.micrograms() - rhs.micrograms())
    }
}

impl core::ops::Mul<UnitT> for Mass {
    type Output = Mass;

    fn mul(self, rhs: UnitT) -> (product: Mass)
        ensures
            product.micrograms() == self.micrograms() * rhs,
    {
        Mass(self.0 * rhs)
    }
}

impl MulSpecImpl<UnitT> for Mass {
    open spec fn obeys_mul_spec() -> bool {
        true
    }

    open spec fn mul_req(self, rhs: UnitT) -> bool {
        fits(self.micrograms() * rhs)
    }

    open spec fn mul_spec(self, rhs: UnitT) -> Mass {
        Mass::of_micrograms(self.micrograms() * rhs)
    }
}

impl core::ops::Div for Mass {
    type Output = UnitT;

    fn div(self, rhs: Mass) -> (ratio: UnitT)
        ensures
            ratio == quotient(self.micrograms(), rhs.micrograms()),
    {
        proof {
            lemma_quotient_fits(self.micrograms(), rhs.micrograms());
        }
        self.0 / rhs.0
    }
}

impl DivSpecImpl for Mass {
    open spec fn obeys_div_spec() -> bool {
        true
    }

    open spec fn div_req(self, rhs: Mass) -> bool {
        divisible(self.micrograms(), rhs.micrograms())
    }

    open spec fn div_spec(self, rhs: Mass) -> UnitT {
        quotient(self.micrograms(), rhs.micrograms()) as UnitT
    }
}

impl core::ops::Div<UnitT> for Mass {
    type Output = Mass;

    fn div(self, rhs: UnitT) -> (part: Mass)
        ensures
            part.micrograms() == quotient(self.micrograms(), rhs as int),
    {
        proof {
            lemma_quotient_fits(self.micrograms(), rhs as int);
        }
        Mass(self.0 / rhs)
    }
}

impl DivSpecImpl<UnitT> for Mass {
    open spec fn obeys_div_spec() -> bool {
        true
    }

    open spec fn div_req(self, rhs: UnitT) -> bool {
        divisible(self.micrograms(), rhs as int)
    }

    open spec fn div_spec(self, rhs: UnitT) -> Mass {
        Mass::of_micrograms(quotient(self.micrograms(), rhs as int))
    }
}

} // verus!
