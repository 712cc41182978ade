use vstd::prelude::*;

verus! {

/// The integer type every quantity is stored in.
pub type UnitT = i64;

pub const MICROJOULES: UnitT = 1;

pub const MILLIJOULES: UnitT = 1_000 * MICROJOULES;

pub const JOULES: UnitT = 1_000 * MILLIJOULES;

pub const KILOJOULES: UnitT = 1_000 * JOULES;

pub const MEGAJOULES: UnitT = 1_000 * KILOJOULES;

pub const MICROGRAM: UnitT = 1;

pub const MILLIGRAM: UnitT = 1_000 * MICROGRAM;

pub const GRAM: UnitT = 1_000 * MILLIGRAM;

pub const KILOGRAM: UnitT = 1_000 * GRAM;

pub const TONNE: UnitT = 1_000 * KILOGRAM;

pub const KILOTONNE: UnitT = 1_000 * TONNE;

pub const MILLIMETRE: UnitT = 1;

pub const CENTIMETRE: UnitT = 10 * MILLIMETRE;

pub const DECIMETRE: UnitT = 10 * CENTIMETRE;

pub const METRE: UnitT = 10 * DECIMETRE;

pub const KILOMETRE: UnitT = 1_000 * METRE;

pub const MILLIMETRE2: UnitT = 1;

pub const CENTIMETRE2: UnitT = 100;

pub const DECIMETRE2: UnitT = 10_000;

pub const METRE2: UnitT = 1_000_000;

pub const KILOMETRE2: UnitT = 1_000_000_000_000;

pub const MILLIMETRE3: UnitT = 1;

pub const CENTIMETRE3: UnitT = 1_000;

pub const DECIMETRE3: UnitT = 1_000_000;

pub const METRE3: UnitT = 1_000_000_000;

pub const KILOMETRE3: UnitT = 1_000_000_000_000_000_000;

pub const MICROLITRE: UnitT = MILLIMETRE3;

pub const MILLILITRE: UnitT = CENTIMETRE3;

pub const CENTILITRE: UnitT = 10 * CENTIMETRE3;

pub const DECILITRE: UnitT = 100 * CENTIMETRE3;

pub const LITRE: UnitT = DECIMETRE3;

pub const KELVIN: UnitT = 0;

pub const CELCIUS: UnitT = KELVIN + 273;

/// Whether a mathematical integer can be stored in a `UnitT`.
pub open spec fn fits(x: int) -> bool {
    i64::MIN <= x <= i64::MAX
}

/// The quotient of `a` by `b` rounded toward zero, as the machine computes it.
pub open spec fn quotient(a: int, b: int) -> int {
    if a >= 0 {
        a / b
    } else {
        -((-a) / b)
    }
}

/// The whole number of units of size `factor` in `amount`, rounded toward zero.
pub open spec fn whole(amount: int, factor: UnitT) -> int {
    quotient(amount, factor as int)
}

/// Whether the machine can divide `a` by `b`: the divisor is not zero and the
/// quotient can be stored.
pub open spec fn divisible(a: int, b: int) -> bool {
    b != 0 && !(a == i64::MIN && b == -1)
}

/// A quotient that the machine can compute can be stored.
pub proof fn lemma_quotient_fits(a: int, b: int)
    requires
        fits(a),
        divisible(a, b),
    ensures
        fits(quotient(a, b)),
{
    if a >= 0 {
        assert(-a <= a / b <= a) by (nonlinear_arith)
            requires
                a >= 0,
                b != 0,
        ;
    } else {
        assert(a <= (-a) / b <= -a) by (nonlinear_arith)
            requires
                a < 0,
                b != 0,
        ;
        if b == -1 {
            assert((-a) / b == a) by (nonlinear_arith)
                requires
                    b == -1,
            ;
        } else {
            if b > 0 {
                assert((-a) / b >= 0) by (nonlinear_arith)
                    requires
                        a < 0,
                        b > 0,
                ;
            } else {
                assert((-a) / b > a) by (nonlinear_arith)
                    requires
                        a < 0,
                        b < -1,
                ;
            }
        }
    }
}

} // verus!
