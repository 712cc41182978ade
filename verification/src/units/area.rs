use super::distance::Distance;
use super::factors::{
    divisible, fits, lemma_quotient_fits, quotient, CENTIMETRE2, DECIMETRE2, KILOMETRE2, METRE2,
    MILLIMETRE2, UnitT,
};
use super::volume::Volume;
use vstd::prelude::*;
use vstd::std_specs::ops::{AddSpecImpl, DivSpecImpl, MulSpecImpl, SubSpecImpl};

verus! {

/// An area, held as a whole number of square millimetres.
#[derive(PartialEq, Eq, Structural, PartialOrd, Ord, Clone, Copy, Debug, Default)]
pub struct Area(UnitT);

impl Area {
    /// The amount in square millimetres.
    pub closed spec fn square_millimetres(self) -> int {
        self.0 as int
    }

    /// The area of the given number of square millimetres.
    pub closed spec fn of_square_millimetres(amount: int) -> Area {
        Area(amount as UnitT)
    }

    /// The area of `value` square kilometres.
    pub fn from_square_kilometres(value: UnitT) -> (area: Self)
        requires
            fits(value * KILOMETRE2),
        ensures
            area.square_millimetres() == value * KILOMETRE2,
            area == Self::of_square_millimetres(value * KILOMETRE2),
    {
        Self(value * KILOMETRE2)
    }

    /// The area of `value` square metres.
    pub fn from_square_metres(value: UnitT) -> (area: Self)
        requires
            fits(value * METRE2),
        ensures
            area.square_millimetres() == value * METRE2,
            area == Self::of_square_millimetres(value * METRE2),
    {
        Self(value * METRE2)
    }

    /// The area of `value` square decimetres.
    pub fn from_square_decimetres(value: UnitT) -> (area: Self)
        requires
            fits(value * DECIMETRE2),
        ensures
            area.square_millimetres() == value * DECIMETRE2,
            area == Self::of_square_millimetres(value * DECIMETRE2),
    {
        Self(value * DECIMETRE2)
    }

    /// The area of `value` square centimetres.
    pub fn from_square_centimetres(value: UnitT) -> (area: Self)
        requires
            fits(value * CENTIMETRE2),
        ensures
            area.square_millimetres() == value * CENTIMETRE2,
            area == Self::of_square_millimetres(value * CENTIMETRE2),
    {
        Self(value * CENTIMETRE2)
    }

    /// The area of `value` square millimetres.
    pub fn from_square_millimetres(value: UnitT) -> (area: Self)
        requires
            fits(value * MILLIMETRE2),
        ensures
            area.square_millimetres() == value * MILLIMETRE2,
            area == Self::of_square_millimetres(value * MILLIMETRE2),
    {
        Self(value * MILLIMETRE2)
    }

    /// The whole square kilometres in this area, rounded toward zero.
    pub fn as_square_kilometres(&self) -> (value: UnitT)
        ensures
            value == quotient(self.square_millimetres(), KILOMETRE2 as int),
    {
        self.0 / KILOMETRE2
    }

    /// The whole square metres in this area, rounded toward zero.
    pub fn as_square_metres(&self) -> (value: UnitT)
        ensures
            value == quotient(self.square_millimetres(), METRE2 as int),
    {
        self.0 / METRE2
    }

    /// The whole square decimetres in this area, rounded toward zero.
    pub fn as_square_decimetres(&self) -> (value: UnitT)
        ensures
            value == quotient(self.square_millimetres(), DECIMETRE2 as int),
    {
        self.0 / DECIMETRE2
    }

    /// The whole square centimetres in this area, rounded toward zero.
    pub fn as_square_centimetres(&self) -> (value: UnitT)
        ensures
            value == quotient(self.square_millimetres(), CENTIMETRE2 as int),
    {
        self.0 / CENTIMETRE2
    }

    /// The whole square millimetres in this area, rounded toward zero.
    pub fn as_square_millimetres(&self) -> (value: UnitT)
        ensures
            value == quotient(self.square_millimetres(), MILLIMETRE2 as int),
    {
        self.0 / MILLIMETRE2
    }
}

impl core::ops::Add for Area {
    type Output = Area;

    fn add(self, rhs: Area) -> (sum: Area)
        ensures
            sum.square_millimetres() == self.square_millimetres() + rhs.square_millimetres(),
    {
        Area(self.0 + rhs.0)
    }
}

impl AddSpecImpl for Area {
    open spec fn obeys_add_spec() -> bool {
        true
    }

    open spec fn add_req(self, rhs: Area) -> bool {
        fits(self.square_millimetres() + rhs.square_millimetres())
    }

    open spec fn add_spec(self, rhs: Area) -> Area {
        Area::of_square_millimetres(self.square_millimetres() + rhs.square_millimetres())
    }
}

impl core::ops::Sub for Area {
    type Output = Area;

    fn sub(self, rhs: Area) -> (difference: Area)
        ensures
            difference.square_millimetres() == self.square_millimetres() - rhs.square_millimetres(),
    {
        Area(self.0 - rhs.0)
    }
}

impl SubSpecImpl for Area {
    open spec fn obeys_sub_spec() -> bool {
        true
    }

    open spec fn sub_req(self, rhs: Area) -> bool {
        fits(self.square_millimetres() - rhs.square_millimetres())
    }

    open spec fn sub_spec(self, rhs: Area) -> Area {
        Area::of_square_millimetres(self.square_millimetres() - rhs.square_millimetres())
    }
}

impl core::ops::Mul<Distance> for Area {
    type Output = Volume;

    fn mul(self, rhs: Distance) -> (volume: Volume)
        ensures
            volume.cubic_millimetres() == self.square_millimetres() * rhs.millimetres(),
    {
        Volume::from_cubic_millimetres(self.as_square_millimetres() * rhs.as_millimetres())
    }
}

impl MulSpecImpl<Distance> for Area {
    open spec fn obeys_mul_spec() -> bool {
        true
    }

    open spec fn mul_req(self, rhs: Distance) -> bool {
        fits(self.square_millimetres() * rhs.millimetres())
    }

    open spec fn mul_spec(self, rhs: Distance) -> Volume {
        Volume::of_cubic_millimetres(self.square_millimetres() * rhs.millimetres())
    }
}

impl core::ops::Mul<UnitT> for Area {
    type Output = Area;

    fn mul(self, rhs: UnitT) -> (product: Area)
        ensures
            product.square_millimetres() == self.square_millimetres() * rhs,
    {
        Area(self.0 * rhs)
    }
}

impl MulSpecImpl<UnitT> for Area {
    open spec fn obeys_mul_spec() -> bool {
        true
    }

    open spec fn mul_req(self, rhs: UnitT) -> bool {
        fits(self.square_millimetres() * rhs)
    }

    open spec fn mul_spec(self, rhs: UnitT) -> Area {
        Area::of_square_millimetres(self.square_millimetres() * rhs)
    }
}

impl core::ops::Div<Distance> for Area {
    type Output = Distance;

    fn div(self, rhs: Distance) -> (distance: Distance)
        ensures
            distance.millimetres() == quotient(self.square_millimetres(), rhs.millimetres()),
    {
        proof {
            lemma_quotient_fits(self.square_millimetres(), rhs.millimetres());
        }
        Distance::from_millimetres(self.as_square_millimetres() / rhs.as_millimetres())
    }
}

impl DivSpecImpl<Distance> for Area {
    open spec fn obeys_div_spec() -> bool {
        true
    }

    open spec fn div_req(self, rhs: Distance) -> bool {
        divisible(self.square_millimetres(), rhs.millimetres())
    }

    open spec fn div_spec(self, rhs: Distance) -> Distance {
        Distance::of_millimetres(quotient(self.square_millimetres(), rhs.millimetres()))
    }
}

impl core::ops::Div<UnitT> for Area {
    type Output = Area;

    fn div(self, rhs: UnitT) -> (part: Area)
        ensures
            part.square_millimetres() == quotient(self.square_millimetres(), rhs as int),
    {
        proof {
            lemma_quotient_fits(self.square_millimetres(), rhs as int);
        }
        Area(self.0 / rhs)
    }
}

impl DivSpecImpl<UnitT> for Area {
    open spec fn obeys_div_spec() -> bool {
        true
    }

    open spec fn div_req(self, rhs: UnitT) -> bool {
        divisible(self.square_millimetres(), rhs as int)
    }

    open spec fn div_spec(self, rhs: UnitT) -> Area {
        Area::of_square_millimetres(quotient(self.square_millimetres(), rhs as int))
    }
}

} // verus!
