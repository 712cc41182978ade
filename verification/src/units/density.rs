use super::factors::{divisible, fits, lemma_quotient_fits, quotient, whole, UnitT, MILLIGRAM};
use super::mass::Mass;
use super::volume::Volume;
use core::cmp::Ordering;
use vstd::prelude::*;
use vstd::std_specs::ops::{AddSpecImpl, DivSpecImpl, MulSpecImpl, SubSpecImpl};

verus! {

/// A density, held as the mass of a sample and the volume that the sample fills.
#[derive(PartialEq, Eq, Structural, Clone, Copy, Debug, Default)]
pub struct Density {
    pub mass: Mass,
    pub volume: Volume,
}

/// The masses of the first `n` densities of `items`, added up.
pub open spec fn total_micrograms(items: Seq<Density>, n: int) -> int
    decreases n,
{
    if n <= 0 {
        0
    } else {
        total_micrograms(items, n - 1) + items[n - 1].mass.micrograms()
    }
}

/// The volumes of the first `n` densities of `items`, added up.
pub open spec fn total_cubic_millimetres(items: Seq<Density>, n: int) -> int
    decreases n,
{
    if n <= 0 {
        0
    } else {
        total_cubic_millimetres(items, n - 1) + items[n - 1].volume.cubic_millimetres()
    }
}

impl Density {
    pub fn new(mass: Mass, volume: Volume) -> (density: Self)
        ensures
            density.mass == mass,
            density.volume == volume,
    {
        Self { mass, volume }
    }

    /// The whole milligrams of mass per cubic millimetre of volume, by which
    /// densities are ordered.
    pub open spec fn milligrams_per_cubic_millimetre(self) -> int {
        quotient(whole(self.mass.micrograms(), MILLIGRAM), self.volume.cubic_millimetres())
    }

    /// Orders two densities by their whole milligrams per cubic millimetre.
    pub fn cmp(&self, other: &Self) -> (order: Ordering)
        requires
            self.volume.cubic_millimetres() != 0,
            other.volume.cubic_millimetres() != 0,
        ensures
            order == Ordering::Less <==> self.milligrams_per_cubic_millimetre()
                < other.milligrams_per_cubic_millimetre(),
            order == Ordering::Equal <==> self.milligrams_per_cubic_millimetre()
                == other.milligrams_per_cubic_millimetre(),
            order == Ordering::Greater <==> self.milligrams_per_cubic_millimetre()
                > other.milligrams_per_cubic_millimetre(),
    {
        proof {
            self.mass.lemma_amount_fits();
            other.mass.lemma_amount_fits();
            lemma_quotient_fits(
                whole(self.mass.micrograms(), MILLIGRAM),
                self.volume.cubic_millimetres(),
            );
            lemma_quotient_fits(
                whole(other.mass.micrograms(), MILLIGRAM),
                other.volume.cubic_millimetres(),
            );
        }
        let d1: UnitT = self.mass.as_milligrams() / self.volume.as_cubic_millimetres();
        let d2: UnitT = other.mass.as_milligrams() / other.volume.as_cubic_millimetres();
        if d1 < d2 {
            Ordering::Less
        } else if d1 == d2 {
            Ordering::Equal
        } else {
            Ordering::Greater
        }
    }

    /// The same order as `cmp`, which is total.
    pub fn partial_cmp(&self, other: &Self) -> (order: Option<Ordering>)
        requires
            self.volume.cubic_millimetres() != 0,
            other.volume.cubic_millimetres() != 0,
        ensures
            order == Some(Ordering::Less) <==> self.milligrams_per_cubic_millimetre()
                < other.milligrams_per_cubic_millimetre(),
            order == Some(Ordering::Equal) <==> self.milligrams_per_cubic_millimetre()
                == other.milligrams_per_cubic_millimetre(),
            order == Some(Ordering::Greater) <==> self.milligrams_per_cubic_millimetre()
                > other.milligrams_per_cubic_millimetre(),
    {
        Some(self.cmp(other))
    }

    /// Adds up the masses and the volumes of `items`, starting from nothing.
    pub fn sum(items: &Vec<Density>) -> (total: Density)
        requires
            forall|n: int|
                0 <= n <= items@.len() ==> fits(#[trigger] total_micrograms(items@, n)),
            forall|n: int|
                0 <= n <= items@.len() ==> fits(#[trigger] total_cubic_millimetres(items@, n)),
        ensures
            total.mass.micrograms() == total_micrograms(items@, items@.len() as int),
            total.volume.cubic_millimetres() == total_cubic_millimetres(
                items@,
                items@.len() as int,
            ),
    {
        let mut total = Density {
            mass: Mass::from_milligrams(0),
            volume: Volume::from_cubic_millimetres(0),
        };
        let mut i: usize = 0;
        while i < items.len()
            invariant
                i <= items@.len(),
                total.mass.micrograms() == total_micrograms(items@, i as int),
                total.volume.cubic_millimetres() == total_cubic_millimetres(items@, i as int),
                forall|n: int|
                    0 <= n <= items@.len() ==> fits(#[trigger] total_micrograms(items@, n)),
                forall|n: int|
                    0 <= n <= items@.len() ==> fits(
                        #[trigger] total_cubic_millimetres(items@, n),
                    ),
            decreases items@.len() - i,
        {
            assert(fits(total_micrograms(items@, i + 1)));
            assert(fits(total_cubic_millimetres(items@, i + 1)));
            total = total + items[i];
            i = i + 1;
        }
        total
    }
}

impl core::ops::Add for Density {
    type Output = Density;

    fn add(self, rhs: Density) -> (sum: Density)
        ensures
            sum.mass.micrograms() == self.mass.micrograms() + rhs.mass.micrograms(),
            sum.volume.cubic_millimetres() == self.volume.cubic_millimetres()
                + rhs.volume.cubic_millimetres(),
    {
        Density { mass: self.mass + rhs.mass, volume: self.volume + rhs.volume }
    }
}

impl AddSpecImpl for Density {
    open spec fn obeys_add_spec() -> bool {
        true
    }

    open spec fn add_req(self, rhs: Density) -> bool {
        &&& fits(self.mass.micrograms() + rhs.mass.micrograms())
        &&& fits(self.volume.cubic_millimetres() + rhs.volume.cubic_millimetres())
    }

    open spec fn add_spec(self, rhs: Density) -> Density {
        Density {
            mass: Mass::of_micrograms(self.mass.micrograms() + rhs.mass.micrograms()),
            volume: Volume::of_cubic_millimetres(
                self.volume.cubic_millimetres() + rhs.volume.cubic_millimetres(),
            ),
        }
    }
}

impl core::ops::Sub for Density {
    type Output = Density;

    fn sub(self, rhs: Density) -> (difference: Density)
        ensures
            difference.mass.micrograms() == self.mass.micrograms() - rhs.mass.micrograms(),
            difference.volume.cubic_millimetres() == self.volume.cubic_millimetres()
                - rhs.volume.cubic_millimetres(),
    {
        Density { mass: self.mass - rhs.mass, volume: self.volume - rhs.volume }
    }
}

impl SubSpecImpl for Density {
    open spec fn obeys_sub_spec() -> bool {
        true
    }

    open spec fn sub_req(self, rhs: Density) -> bool {
        &&& fits(self.mass.micrograms() - rhs.mass.micrograms())
        &&& fits(self.volume.cubic_millimetres() - rhs.volume.cubic_millimetres())
    }

    open spec fn sub_spec(self, rhs: Density) -> Density {
        Density {
            mass: Mass::of_micrograms(self.mass.micrograms() - rhs.mass.micrograms()),
            volume: Volume::of_cubic_millimetres(
                self.volume.cubic_millimetres() - rhs.volume.cubic_millimetres(),
            ),
        }
    }
}

/// Spreads the same mass over `rhs` times the volume.
impl core::ops::Div<UnitT> for Density {
    type Output = Density;

    fn div(self, rhs: UnitT) -> (thinned: Density)
        ensures
            thinned.mass == self.mass,
            thinned.volume.cubic_millimetres() == self.volume.cubic_millimetres() * rhs,
    {
        Density {
            mass: self.mass,
            volume: Volume::from_microlitres(self.volume.as_microlitres() * rhs),
        }
    }
}

impl DivSpecImpl<UnitT> for Density {
    open spec fn obeys_div_spec() -> bool {
        true
    }

    open spec fn div_req(self, rhs: UnitT) -> bool {
        fits(self.volume.cubic_millimetres() * rhs)
    }

    open spec fn div_spec(self, rhs: UnitT) -> Density {
        Density {
            mass: self.mass,
            volume: Volume::of_cubic_millimetres(self.volume.cubic_millimetres() * rhs),
        }
    }
}

/// The volume that this mass fills at the given density: the density's volume
/// once for each whole time that its mass goes into this one.
impl core::ops::Div<Density> for Mass {
    type Output = Volume;

    fn div(self, rhs: Density) -> (volume: Volume)
        ensures
            volume.cubic_millimetres() == rhs.volume.cubic_millimetres() * quotient(
                self.micrograms(),
                rhs.mass.micrograms(),
            ),
    {
        Volume::from_cubic_millimetres(rhs.volume.as_cubic_millimetres() * (self / rhs.mass))
    }
}

impl DivSpecImpl<Density> for Mass {
    open spec fn obeys_div_spec() -> bool {
        true
    }

    open spec fn div_req(self, rhs: Density) -> bool {
        &&& divisible(self.micrograms(), rhs.mass.micrograms())
        &&& fits(
            rhs.volume.cubic_millimetres() * quotient(self.micrograms(), rhs.mass.micrograms()),
        )
    }

    open spec fn div_spec(self, rhs: Density) -> Volume {
        Volume::of_cubic_millimetres(
            rhs.volume.cubic_millimetres() * quotient(self.micrograms(), rhs.mass.micrograms()),
        )
    }
}

/// The mass of the given volume at this density, in whole milligrams.
impl core::ops::Mul<Volume> for Density {
    type Output = Mass;

    fn mul(self, rhs: Volume) -> (mass: Mass)
        ensures
            mass.micrograms() == quotient(
                whole(self.mass.micrograms(), MILLIGRAM) * rhs.cubic_millimetres(),
                self.volume.cubic_millimetres(),
            ) * MILLIGRAM,
    {
        proof {
            lemma_quotient_fits(
                whole(self.mass.micrograms(), MILLIGRAM) * rhs.cubic_millimetres(),
                self.volume.cubic_millimetres(),
            );
        }
        Mass::from_milligrams(
            (self.mass.as_milligrams() * rhs.as_cubic_millimetres())
                / self.volume.as_cubic_millimetres(),
        )
    }
}

impl MulSpecImpl<Volume> for Density {
    open spec fn obeys_mul_spec() -> bool {
        true
    }

    open spec fn mul_req(self, rhs: Volume) -> bool {
        &&& fits(whole(self.mass.micrograms(), MILLIGRAM) * rhs.cubic_millimetres())
        &&& divisible(
            whole(self.mass.micrograms(), MILLIGRAM) * rhs.cubic_millimetres(),
            self.volume.cubic_millimetres(),
        )
        &&& fits(
            quotient(
                whole(self.mass.micrograms(), MILLIGRAM) * rhs.cubic_millimetres(),
                self.volume.cubic_millimetres(),
            ) * MILLIGRAM,
        )
    }

    open spec fn mul_spec(self, rhs: Volume) -> Mass {
        Mass::of_micrograms(
            quotient(
                whole(self.mass.micrograms(), MILLIGRAM) * rhs.cubic_millimetres(),
                self.volume.cubic_millimetres(),
            ) * MILLIGRAM,
        )
    }
}

} // verus!
