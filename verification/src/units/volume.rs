use super::area::Area;
use super::distance::Distance;
use super::factors::{
    divisible, fits, lemma_quotient_fits, quotient, CENTILITRE, CENTIMETRE3, DECILITRE, DECIMETRE3,
    KILOMETRE3, LITRE, METRE3, MICROLITRE, MILLILITRE, MILLIMETRE3, UnitT,
};
use vstd::prelude::*;
use vstd::std_specs::ops::{AddSpecImpl, DivSpecImpl, MulSpecImpl, SubSpecImpl};

verus! {

/// A volume, held as a whole number of cubic millimetres.
#[derive(PartialEq, Eq, Structural, PartialOrd, Ord, Clone, Copy, Debug, Default)]
pub struct Volume(UnitT);

impl Volume {
    /// The amount in cubic millimetres.
    pub closed spec fn cubic_millimetres(self) -> int {
        self.0 as int
    }

    /// The volume of the given number of cubic millimetres.
    pub closed spec fn of_cubic_millimetres(amount: int) -> Volume {
        Volume(amount as UnitT)
    }

    /// The volume of `value` cubic kilometres.
    pub fn from_cubic_kilometres(value: UnitT) -> (volume: Self)
        requires
            fits(value * KILOMETRE3),
        ensures
            volume.cubic_millimetres() == value * KILOMETRE3,
            volume == Self::of_cubic_millimetres(value * KILOMETRE3),
    {
        Self(value * KILOMETRE3)
    }

    /// The volume of `value` cubic metres.
    pub fn from_cubic_metres(value: UnitT) -> (volume: Self)
        requires
            fits(value * METRE3),
        ensures
            volume.cubic_millimetres() == value * METRE3,
            volume == Self::of_cubic_millimetres(value * METRE3),
    {
        Self(value * METRE3)
    }

    /// The volume of `value` cubic decimetres.
    pub fn from_cubic_decimetres(value: UnitT) -> (volume: Self)
        requires
            fits(value * DECIMETRE3),
        ensures
            volume.cubic_millimetres() == value * DECIMETRE3,
            volume == Self::of_cubic_millimetres(value * DECIMETRE3),
    {
        Self(value * DECIMETRE3)
    }

    /// The volume of `value` cubic centimetres.
    pub fn from_cubic_centimetres(value: UnitT) -> (volume: Self)
        requires
            fits(value * CENTIMETRE3),
        ensures
            volume.cubic_millimetres() == value * CENTIMETRE3,
            volume == Self::of_cubic_millimetres(value * CENTIMETRE3),
    {
        Self(value * CENTIMETRE3)
    }

    /// The volume of `value` cubic millimetres.
    pub fn from_cubic_millimetres(value: UnitT) -> (volume: Self)
        requires
            fits(value * MILLIMETRE3),
        ensures
            volume.cubic_millimetres() == value * MILLIMETRE3,
            volume == Self::of_cubic_millimetres(value * MILLIMETRE3),
    {
        Self(value * MILLIMETRE3)
    }

    /// The volume of `value` litres.
    pub fn from_litres(value: UnitT) -> (volume: Self)
        requires
            fits(value * LITRE),
        ensures
            volume.cubic_millimetres() == value * LITRE,
            volume == Self::of_cubic_millimetres(value * LITRE),
    {
        Self(value * LITRE)
    }

    /// The volume of `value` decilitres.
    pub fn from_decilitres(value: UnitT) -> (volume: Self)
        requires
            fits(value * DECILITRE),
        ensures
            volume.cubic_millimetres() == value * DECILITRE,
            volume == Self::of_cubic_millimetres(value * DECILITRE),
    {
        Self(value * DECILITRE)
    }

    /// The volume of `value` centilitres.
    pub fn from_centilitres(value: UnitT) -> (volume: Self)
        requires
            fits(value * CENTILITRE),
        ensures
            volume.cubic_millimetres() == value * CENTILITRE,
            volume == Self::of_cubic_millimetres(value * CENTILITRE),
    {
        Self(value * CENTILITRE)
    }

    /// The volume of `value` millilitres.
    pub fn from_millilitres(value: UnitT) -> (volume: Self)
        requires
            fits(value * MILLILITRE),
        ensures
            volume.cubic_millimetres() == value * MILLILITRE,
            volume == Self::of_cubic_millimetres(value * MILLILITRE),
    {
        Self(value * MILLILITRE)
    }

    /// The volume of `value` microlitres.
    pub fn from_microlitres(value: UnitT) -> (volume: Self)
        requires
            fits(value * MICROLITRE),
        ensures
            volume.cubic_millimetres() == value * MICROLITRE,
            volume == Self::of_cubic_millimetres(value * MICROLITRE),
    {
        Self(value * MICROLITRE)
    }

    /// The whole cubic kilometres in this volume, rounded toward zero.
    pub fn as_cubic_kilometres(&self) -> (value: UnitT)
        ensures
            value == quotient(self.cubic_millimetres(), KILOMETRE3 as int),
    {
        self.0 / KILOMETRE3
    }

    /// The whole cubic metres in this volume, rounded toward zero.
    pub fn as_cubic_metres(&self) -> (value: UnitT)
        ensures
            value == quotient(self.cubic_millimetres(), METRE3 as int),
    {
        self.0 / METRE3
    }

    /// The whole cubic decimetres in this volume, rounded toward zero.
    pub fn as_cubic_decimetres(&self) -> (value: UnitT)
        ensures
            value == quotient(self.cubic_millimetres(), DECIMETRE3 as int),
    {
        self.0 / DECIMETRE3
    }

    /// The whole cubic centimetres in this volume, rounded toward zero.
    pub fn as_cubic_centimetres(&self) -> (value: UnitT)
        ensures
            value == quotient(self.cubic_millimetres(), CENTIMETRE3 as int),
    {
        self.0 / CENTIMETRE3
    }

    /// The whole cubic millimetres in this volume, rounded toward zero.
    pub fn as_cubic_millimetres(&self) -> (value: UnitT)
        ensures
            value == quotient(self.cubic_millimetres(), MILLIMETRE3 as int),
    {
        self.0 / MILLIMETRE3
    }

    /// The whole litres in this volume, rounded toward zero.
    pub fn as_litres(&self) -> (value: UnitT)
        ensures
            value == quotient(self.cubic_millimetres(), LITRE as int),
    {
        self.0 / LITRE
    }

    /// The whole decilitres in this volume, rounded toward zero.
    pub fn as_decilitres(&self) -> (value: UnitT)
        ensures
            value == quotient(self.cubic_millimetres(), DECILITRE as int),
    {
        self.0 / DECILITRE
    }

    /// The whole centilitres in this volume, rounded toward zero.
    pub fn as_centilitres(&self) -> (value: UnitT)
        ensures
            value == quotient(self.cubic_millimetres(), CENTILITRE as int),
    {
        self.0 / CENTILITRE
    }

    /// The whole millilitres in this volume, rounded toward zero.
    pub fn as_millilitres(&self) -> (value: UnitT)
        ensures
            value == quotient(self.cubic_millimetres(), MILLILITRE as int),
    {
        self.0 / MILLILITRE
    }

    /// The whole microlitres in this volume, rounded toward zero.
    pub fn as_microlitres(&self) -> (value: UnitT)
        ensures
            value == quotient(self.cubic_millimetres(), MICROLITRE as int),
    {
        self.0 / MICROLITRE
    }

    /// Adds `rhs` to this volume in place.
    pub fn add_assign(&mut self, rhs: Volume)
        requires
            fits(old(self).cubic_millimetres() + rhs.cubic_millimetres()),
        ensures
            final(self).cubic_millimetres() == old(self).cubic_millimetres()
                + rhs.cubic_millimetres(),
    {
        self.0 = self.0 + rhs.0;
    }

    /// Takes `rhs` from this volume in place.
    pub fn sub_assign(&mut self, rhs: Volume)
        requires
            fits(old(self).cubic_millimetres() - rhs.cubic_millimetres()),
        ensures
            final(self).cubic_millimetres() == old(self).cubic_millimetres()
                - rhs.cubic_millimetres(),
    {
        self.0 = self.0 - rhs.0;
    }
}

impl core::ops::Add for Volume {
    type Output = Volume;

    fn add(self, rhs: Volume) -> (sum: Volume)
        ensures
            sum.cubic_millimetres() == self.cubic_millimetres() + rhs.cubic_millimetres(),
    {
        Volume(self.0 + rhs.0)
    }
}

impl AddSpecImpl for Volume {
    open spec fn obeys_add_spec() -> bool {
        true
    }

    open spec fn add_req(self, rhs: Volume) -> bool {
        fits(self.cubic_millimetres() + rhs.cubic_millimetres())
    }

    open spec fn add_spec(self, rhs: Volume) -> Volume {
        Volume::of_cubic_millimetres(self.cubic_millimetres() + rhs.cubic_millimetres())
    }
}

impl core::ops::Sub for Volume {
    type Output = Volume;

    fn sub(self, rhs: Volume) -> (difference: Volume)
        ensures
            difference.cubic_millimetres() == self.cubic_millimetres() - rhs.cubic_millimetres(),
    {
        Volume(self.0 - rhs.0)
    }
}

impl SubSpecImpl for Volume {
    open spec fn obeys_sub_spec() -> bool {
        true
    }

    open spec fn sub_req(self, rhs: Volume) -> bool {
        fits(self.cubic_millimetres() - rhs.cubic_millimetres())
    }

    open spec fn sub_spec(self, rhs: Volume) -> Volume {
        Volume::of_cubic_millimetres(self.cubic_millimetres() - rhs.cubic_millimetres())
    }
}

impl core::ops::Mul<UnitT> for Volume {
    type Output = Volume;

    fn mul(self, rhs: UnitT) -> (product: Volume)
        ensures
            product.cubic_millimetres() == self.cubic_millimetres() * rhs,
    {
        Volume(self.0 * rhs)
    }
}

impl MulSpecImpl<UnitT> for Volume {
    open spec fn obeys_mul_spec() -> bool {
        true
    }

    open spec fn mul_req(self, rhs: UnitT) -> bool {
        fits(self.cubic_millimetres() * rhs)
    }

    open spec fn mul_spec(self, rhs: UnitT) -> Volume {
        Volume::of_cubic_millimetres(self.cubic_millimetres() * rhs)
    }
}

impl core::ops::Div<Distance> for Volume {
    type Output = Area;

    fn div(self, rhs: Distance) -> (area: Area)
        ensures
            area.square_millimetres() == quotient(self.cubic_millimetres(), rhs.millimetres()),
    {
        proof {
            lemma_quotient_fits(self.cubic_millimetres(), rhs.millimetres());
        }
        Area::from_square_millimetres(self.as_cubic_millimetres() / rhs.as_millimetres())
    }
}

impl DivSpecImpl<Distance> for Volume {
    open spec fn obeys_div_spec() -> bool {
        true
    }

    open spec fn div_req(self, rhs: Distance) -> bool {
        divisible(self.cubic_millimetres(), rhs.millimetres())
    }

    open spec fn div_spec(self, rhs: Distance) -> Area {
        Area::of_square_millimetres(quotient(self.cubic_millimetres(), rhs.millimetres()))
    }
}

impl core::ops::Div<Area> for Volume {
    type Output = Distance;

    fn div(self, rhs: Area) -> (distance: Distance)
        ensures
            distance.millimetres() == quotient(self.cubic_millimetres(), rhs.square_millimetres()),
    {
        proof {
            lemma_quotient_fits(self.cubic_millimetres(), rhs.square_millimetres());
        }
        Distance::from_millimetres(self.as_cubic_millimetres() / rhs.as_square_millimetres())
    }
}

impl DivSpecImpl<Area> for Volume {
    open spec fn obeys_div_spec() -> bool {
        true
    }

    open spec fn div_req(self, rhs: Area) -> bool {
        divisible(self.cubic_millimetres(), rhs.square_millimetres())
    }

    open spec fn div_spec(self, rhs: Area) -> Distance {
        Distance::of_millimetres(quotient(self.cubic_millimetres(), rhs.square_millimetres()))
    }
}

impl core::ops::Div<UnitT> for Volume {
    type Output = Volume;

    fn div(self, rhs: UnitT) -> (part: Volume)
        ensures
            part.cubic_millimetres() == quotient(self.cubic_millimetres(), rhs as int),
    {
        proof {
            lemma_quotient_fits(self.cubic_millimetres(), rhs as int);
        }
        Volume(self.0 / rhs)
    }
}

impl DivSpecImpl<UnitT> for Volume {
    open spec fn obeys_div_spec() -> bool {
        true
    }

    open spec fn div_req(self, rhs: UnitT) -> bool {
        divisible(self.cubic_millimetres(), rhs as int)
    }

    open spec fn div_spec(self, rhs: UnitT) -> Volume {
        Volume::of_cubic_millimetres(quotient(self.cubic_millimetres(), rhs as int))
    }
}

} // verus!
