use super::factors::{fits, CELCIUS, KELVIN, UnitT};
use vstd::prelude::*;
use vstd::std_specs::ops::{AddSpecImpl, SubSpecImpl};

verus! {

/// A temperature, held as a whole number of kelvin.
#[derive(PartialEq, Eq, Structural, PartialOrd, Ord, Clone, Copy, Debug, Default)]
pub struct Temperature(UnitT);

impl Temperature {
    /// The amount in kelvin.
    pub closed spec fn kelvin(self) -> int {
        self.0 as int
    }

    /// The temperature of the given number of kelvin.
    pub closed spec fn of_kelvin(amount: int) -> Temperature {
        Temperature(amount as UnitT)
    }

    /// The temperature of `value` kelvin.
    pub fn from_kelvin(value: UnitT) -> (temperature: Self)
        ensures
            temperature.kelvin() == value + KELVIN,
            temperature == Self::of_kelvin(value + KELVIN),
    {
        Self(value + KELVIN)
    }

    /// The temperature of `value` degrees Celsius.
    pub fn from_celcius(value: UnitT) -> (temperature: Self)
        requires
            fits(value + CELCIUS),
        ensures
            temperature.kelvin() == value + CELCIUS,
            temperature == Self::of_kelvin(value + CELCIUS),
    {
        Self(value + CELCIUS)
    }

    /// This temperature in kelvin.
    pub fn as_kelvin(&self) -> (value: UnitT)
        ensures
            value == self.kelvin() - KELVIN,
    {
        self.0 - KELVIN
    }

    /// This temperature in degrees Celsius.
    pub fn as_celcius(&self) -> (value: UnitT)
        requires
            fits(self.kelvin() - CELCIUS),
        ensures
            value == self.kelvin() - CELCIUS,
    {
        self.0 - CELCIUS
    }
}

impl core::ops::Add for Temperature {
    type Output = Temperature;

    fn add(self, rhs: Temperature) -> (sum: Temperature)
        ensures
            sum.kelvin() == self.kelvin() + rhs.kelvin(),
    {
        Temperature(self.0 + rhs.0)
    }
}

impl AddSpecImpl for Temperature {
    open spec fn obeys_add_spec() -> bool {
        true
    }

    open spec fn add_req(self, rhs: Temperature) -> bool {
        fits(self.kelvin() + rhs.kelvin())
    }

    open spec fn add_spec(self, rhs: Temperature) -> Temperature {
        Temperature::of_kelvin(self.kelvin() + rhs.kelvin())
    }
}

impl core::ops::Sub for Temperature {
    type Output = Temperature;

    fn sub(self, rhs: Temperature) -> (difference: Temperature)
        ensures
            difference.kelvin() == self.kelvin() - rhs.kelvin(),
    {
        Temperature(self.0 - rhs.0)
    }
}

impl SubSpecImpl for Temperature {
    open spec fn obeys_sub_spec() -> bool {
        true
    }

    open spec fn sub_req(self, rhs: Temperature) -> bool {
        fits(self.kelvin() - rhs.kelvin())
    }

    open spec fn sub_spec(self, rhs: Temperature) -> Temperature {
        Temperature::of_kelvin(self.kelvin() - rhs.kelvin())
    }
}

} // verus!
