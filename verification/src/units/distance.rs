use super::area::Area;
use super::factors::{
    divisible, fits, lemma_quotient_fits, quotient, CENTIMETRE, DECIMETRE, KILOMETRE, METRE,
    MILLIMETRE, UnitT,
};
use super::volume::Volume;
use vstd::prelude::*;
use vstd::std_specs::ops::{AddSpecImpl, DivSpecImpl, MulSpecImpl, SubSpecImpl};

verus! {

/// A length, held as a whole number of millimetres.
#[derive(PartialEq, Eq, Structural, PartialOrd, Ord, Clone, Copy, Debug, Default)]
pub struct Distance(UnitT);

impl Distance {
    /// The amount in millimetres.
    pub closed spec fn millimetres(self) -> int {
        self.0 as int
    }

    /// The distance of the given number of millimetres.
    pub closed spec fn of_millimetres(amount: int) -> Distance {
        Distance(amount as UnitT)
    }

    /// The distance of `value` kilometres.
    pub fn from_kilometres(value: UnitT) -> (distance: Self)
        requires
            fits(value * KILOMETRE),
        ensures
            distance.millimetres() == value * KILOMETRE,
            distance == Self::of_millimetres(value * KILOMETRE),
    {
        Self(value * KILOMETRE)
    }

    /// The distance of `value` metres.
    pub fn from_metres(value: UnitT) -> (distance: Self)
        requires
            fits(value * METRE),
        ensures
            distance.millimetres() == value * METRE,
            distance == Self::of_millimetres(value * METRE),
    {
        Self(value * METRE)
    }

    /// The distance of `value` decimetres.
    pub fn from_decimetres(value: UnitT) -> (distance: Self)
        requires
            fits(value * DECIMETRE),
        ensures
            distance.millimetres() == value * DECIMETRE,
            distance == Self::of_millimetres(value * DECIMETRE),
    {
        Self(value * DECIMETRE)
    }

    /// The distance of `value` centimetres.
    pub fn from_centimetres(value: UnitT) -> (distance: Self)
        requires
            fits(value * CENTIMETRE),
        ensures
            distance.millimetres() == value * CENTIMETRE,
            distance == Self::of_millimetres(value * CENTIMETRE),
    {
        Self(value * CENTIMETRE)
    }

    /// The distance of `value` millimetres.
    pub fn from_millimetres(value: UnitT) -> (distance: Self)
        requires
            fits(value * MILLIMETRE),
        ensures
            distance.millimetres() == value * MILLIMETRE,
            distance == Self::of_millimetres(value * MILLIMETRE),
    {
        Self(value * MILLIMETRE)
    }

    /// The whole kilometres in this distance, rounded toward zero.
    pub fn as_kilometres(&self) -> (value: UnitT)
        ensures
            value == quotient(self.millimetres(), KILOMETRE as int),
    {
        self.0 / KILOMETRE
    }

    /// The whole metres in this distance, rounded toward zero.
    pub fn as_metres(&self) -> (value: UnitT)
        ensures
            value == quotient(self.millimetres(), METRE as int),
    {
        self.0 / METRE
    }

    /// The whole decimetres in this distance, rounded toward zero.
    pub fn as_decimetres(&self) -> (value: UnitT)
        ensures
            value == quotient(self.millimetres(), DECIMETRE as int),
    {
        self.0 / DECIMETRE
    }

    /// The whole centimetres in this distance, rounded toward zero.
    pub fn as_centimetres(&self) -> (value: UnitT)
        ensures
            value == quotient(self.millimetres(), CENTIMETRE as int),
    {
        self.0 / CENTIMETRE
    }

    /// The whole millimetres in this distance, rounded toward zero.
    pub fn as_millimetres(&self) -> (value: UnitT)
        ensures
            value == quotient(self.millimetres(), MILLIMETRE as int),
    {
        self.0 / MILLIMETRE
    }
}

impl core::ops::Add for Distance {
    type Output = Distance;

    fn add(self, rhs: Distance) -> (sum: Distance)
        ensures
            sum.millimetres() == self.millimetres() + rhs.millimetres(),
    {
        Distance(self.0 + rhs.0)
    }
}

impl AddSpecImpl for Distance {
    open spec fn obeys_add_spec() -> bool {
        true
    }

    open spec fn add_req(self, rhs: Distance) -> bool {
        fits(self.millimetres() + rhs.millimetres())
    }

    open spec fn add_spec(self, rhs: Distance) -> Distance {
        Distance::of_millimetres(self.millimetres() + rhs.millimetres())
    }
}

impl core::ops::Sub for Distance {
    type Output = Distance;

    fn sub(self, rhs: Distance) -> (difference: Distance)
        ensures
            difference.millimetres() == self.millimetres() - rhs.millimetres(),
    {
        Distance(self.0 - rhs.0)
    }
}

impl SubSpecImpl for Distance {
    open spec fn obeys_sub_spec() -> bool {
        true
    }

    open spec fn sub_req(self, rhs: Distance) -> bool {
        fits(self.millimetres() - rhs.millimetres())
    }

    open spec fn sub_spec(self, rhs: Distance) -> Distance {
        Distance::of_millimetres(self.millimetres() - rhs.millimetres())
    }
}

impl core::ops::Mul<Distance> for Distance {
    type Output = Area;

    fn mul(self, rhs: Distance) -> (area: Area)
        ensures
            area.square_millimetres() == self.millimetres() * rhs.millimetres(),
    {
        Area::from_square_millimetres(self.as_millimetres() * rhs.as_millimetres())
    }
}

impl MulSpecImpl<Distance> for Distance {
    open spec fn obeys_mul_spec() -> bool {
        true
    }

    open spec fn mul_req(self, rhs: Distance) -> bool {
        fits(self.millimetres() * rhs.millimetres())
    }

    open spec fn mul_spec(self, rhs: Distance) -> Area {
        Area::of_square_millimetres(self.millimetres() * rhs.millimetres())
    }
}

impl core::ops::Mul<Area> for Distance {
    type Output = Volume;

    fn mul(self, rhs: Area) -> (volume: Volume)
        ensures
            volume.cubic_millimetres() == self.millimetres() * rhs.square_millimetres(),
    {
        Volume::from_cubic_millimetres(self.as_millimetres() * rhs.as_square_millimetres())
    }
}

impl MulSpecImpl<Area> for Distance {
    open spec fn obeys_mul_spec() -> bool {
        true
    }

    open spec fn mul_req(self, rhs: Area) -> bool {
        fits(self.millimetres() * rhs.square_millimetres())
    }

    open spec fn mul_spec(self, rhs: Area) -> Volume {
        Volume::of_cubic_millimetres(self.millimetres() * rhs.square_millimetres())
    }
}

impl core::ops::Mul<UnitT> for Distance {
    type Output = Distance;

    fn mul(self, rhs: UnitT) -> (product: Distance)
        ensures
            product.millimetres() == self.millimetres() * rhs,
    {
        Distance(self.0 * rhs)
    }
}

impl MulSpecImpl<UnitT> for Distance {
    open spec fn obeys_mul_spec() -> bool {
        true
    }

    open spec fn mul_req(self, rhs: UnitT) -> bool {
        fits(self.millimetres() * rhs)
    }

    open spec fn mul_spec(self, rhs: UnitT) -> Distance {
        Distance::of_millimetres(self.millimetres() * rhs)
    }
}

impl core::ops::Div for Distance {
    type Output = UnitT;

    fn div(self, rhs: Distance) -> (ratio: UnitT)
        ensures
            ratio == quotient(self.millimetres(), rhs.millimetres()),
    {
        proof {
            lemma_quotient_fits(self.millimetres(), rhs.millimetres());
        }
        self.0 / rhs.0
    }
}

impl DivSpecImpl for Distance {
    open spec fn obeys_div_spec() -> bool {
        true
    }

    open spec fn div_req(self, rhs: Distance) -> bool {
        divisible(self.millimetres(), rhs.millimetres())
    }

    open spec fn div_spec(self, rhs: Distance) -> UnitT {
        quotient(self.millimetres(), rhs.millimetres()) as UnitT
    }
}

impl core::ops::Div<UnitT> for Distance {
    type Output = Distance;

    fn div(self, rhs: UnitT) -> (part: Distance)
        ensures
            part.millimetres() == quotient(self.millimetres(), rhs as int),
    {
        proof {
            lemma_quotient_fits(self.millimetres(), rhs as int);
        }
        Distance(self.0 / rhs)
    }
}

impl DivSpecImpl<UnitT> for Distance {
    open spec fn obeys_div_spec() -> bool {
        true
    }

    open spec fn div_req(self, rhs: UnitT) -> bool {
        divisible(self.millimetres(), rhs as int)
    }

    open spec fn div_spec(self, rhs: UnitT) -> Distance {
        Distance::of_millimetres(quotient(self.millimetres(), rhs as int))
    }
}

} // verus!
