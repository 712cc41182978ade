use common::units::factors::{KILOMETRE3, LITRE};
use common::units::{Area, Density, Distance, Energy, HeatCapacity, Mass, Temperature, Volume};
use std::cmp::Ordering;

#[test]
fn mass_converts_between_units() {
    let mass = Mass::from_kilograms(2);
    assert_eq!(mass.as_grams(), 2_000);
    assert_eq!(mass.as_milligrams(), 2_000_000);
    assert_eq!(mass.as_tonnes(), 0);
    assert_eq!(Mass::from_kilotonnes(3).as_tonnes(), 3_000);
    assert_eq!(Mass::from_tonnes(5).as_kilograms(), 5_000);
    assert_eq!(Mass::from_grams(1_500).as_kilograms(), 1);
    assert_eq!(Mass::from_milligrams(7).as_milligrams(), 7);
    assert_eq!(Mass::from_kilotonnes(1).as_kilotonnes(), 1);
}

#[test]
fn negative_amounts_round_toward_zero() {
    assert_eq!(Mass::from_grams(-1_500).as_kilograms(), -1);
    assert_eq!(Distance::from_millimetres(-1_999).as_metres(), -1);
    assert_eq!((Distance::from_millimetres(-7) / 2).as_millimetres(), -3);
    assert_eq!((Distance::from_millimetres(7) / -2).as_millimetres(), -3);
}

#[test]
fn mass_arithmetic() {
    let a = Mass::from_grams(5);
    let b = Mass::from_grams(7);
    assert_eq!((a + b).as_grams(), 12);
    assert_eq!((b - a).as_grams(), 2);
    assert_eq!((a * 3).as_grams(), 15);
    assert_eq!(b / a, 1);
    assert_eq!((b / 7).as_grams(), 1);
    let mut c = a;
    c.add_assign(b);
    assert_eq!(c.as_grams(), 12);
    c.sub_assign(a);
    assert_eq!(c, b);
}

#[test]
fn distance_converts_and_multiplies() {
    assert_eq!(Distance::from_kilometres(1).as_metres(), 1_000);
    assert_eq!(Distance::from_metres(1).as_decimetres(), 10);
    assert_eq!(Distance::from_decimetres(1).as_centimetres(), 10);
    assert_eq!(Distance::from_centimetres(1).as_millimetres(), 10);
    assert_eq!(Distance::from_millimetres(2_500_000).as_kilometres(), 2);
    let side = Distance::from_metres(2);
    let area = side * side;
    assert_eq!(area.as_square_metres(), 4);
    let volume = side * area;
    assert_eq!(volume.as_cubic_metres(), 8);
    assert_eq!((side + side).as_metres(), 4);
    assert_eq!((side - side).as_metres(), 0);
    assert_eq!((side * 3).as_metres(), 6);
    assert_eq!(side / Distance::from_metres(1), 2);
}

#[test]
fn area_converts_and_divides() {
    assert_eq!(Area::from_square_kilometres(1).as_square_metres(), 1_000_000);
    assert_eq!(Area::from_square_metres(1).as_square_decimetres(), 100);
    assert_eq!(Area::from_square_decimetres(1).as_square_centimetres(), 100);
    assert_eq!(Area::from_square_centimetres(1).as_square_millimetres(), 100);
    assert_eq!(Area::from_square_millimetres(3_000_000).as_square_metres(), 3);
    assert_eq!(Area::from_square_kilometres(2).as_square_kilometres(), 2);
    let area = Area::from_square_metres(6);
    assert_eq!((area / Distance::from_metres(2)).as_metres(), 3);
    assert_eq!((area * Distance::from_metres(2)).as_cubic_metres(), 12);
    assert_eq!((area * 2).as_square_metres(), 12);
    assert_eq!((area / 2).as_square_metres(), 3);
    assert_eq!((area + area).as_square_metres(), 12);
    assert_eq!((area - area).as_square_metres(), 0);
}

#[test]
fn volume_converts_between_units() {
    assert_eq!(KILOMETRE3, 1_000_000_000_000_000_000);
    assert_eq!(LITRE, 1_000_000);
    assert_eq!(Volume::from_cubic_kilometres(1).as_cubic_metres(), 1_000_000_000);
    assert_eq!(Volume::from_cubic_metres(1).as_litres(), 1_000);
    assert_eq!(Volume::from_cubic_decimetres(1).as_litres(), 1);
    assert_eq!(Volume::from_cubic_centimetres(1).as_millilitres(), 1);
    assert_eq!(Volume::from_cubic_millimetres(1).as_microlitres(), 1);
    assert_eq!(Volume::from_litres(1).as_decilitres(), 10);
    assert_eq!(Volume::from_decilitres(1).as_centilitres(), 10);
    assert_eq!(Volume::from_centilitres(1).as_millilitres(), 10);
    assert_eq!(Volume::from_millilitres(1).as_cubic_centimetres(), 1);
    assert_eq!(Volume::from_microlitres(5).as_cubic_millimetres(), 5);
    assert_eq!(Volume::from_litres(2_000).as_cubic_metres(), 2);
    assert_eq!(Volume::from_cubic_metres(1).as_cubic_decimetres(), 1_000);
    assert_eq!(Volume::from_cubic_kilometres(3).as_cubic_kilometres(), 3);
}

#[test]
fn volume_arithmetic() {
    let volume = Volume::from_cubic_metres(12);
    assert_eq!((volume / Distance::from_metres(3)).as_square_metres(), 4);
    assert_eq!((volume / Area::from_square_metres(4)).as_metres(), 3);
    assert_eq!((volume / 4).as_cubic_metres(), 3);
    assert_eq!((volume * 2).as_cubic_metres(), 24);
    assert_eq!((volume + volume).as_cubic_metres(), 24);
    assert_eq!((volume - volume).as_cubic_metres(), 0);
    let mut other = volume;
    other.add_assign(volume);
    assert_eq!(other.as_cubic_metres(), 24);
    other.sub_assign(volume);
    assert_eq!(other, volume);
}

#[test]
fn energy_converts_and_divides() {
    assert_eq!(Energy::from_megajoules(1).as_kilojoules(), 1_000);
    assert_eq!(Energy::from_kilojoules(1).as_joules(), 1_000);
    assert_eq!(Energy::from_joules(1).as_millijoules(), 1_000);
    assert_eq!(Energy::from_millijoules(1).as_microjoules(), 1_000);
    assert_eq!(Energy::from_microjoules(2_000_000_000_000).as_megajoules(), 2);
    assert_eq!(Energy::from_joules(9) / Energy::from_joules(2), 4);
    assert_eq!((Energy::from_joules(9) + Energy::from_joules(2)).as_joules(), 11);
    assert_eq!((Energy::from_joules(9) - Energy::from_joules(2)).as_joules(), 7);
}

#[test]
fn temperature_scales() {
    assert_eq!(Temperature::from_celcius(0).as_kelvin(), 273);
    assert_eq!(Temperature::from_kelvin(300).as_celcius(), 27);
    assert_eq!(Temperature::from_kelvin(5).as_kelvin(), 5);
    assert_eq!(Temperature::from_celcius(-273).as_kelvin(), 0);
    assert_eq!((Temperature::from_kelvin(5) + Temperature::from_kelvin(6)).as_kelvin(), 11);
    assert_eq!((Temperature::from_kelvin(5) - Temperature::from_kelvin(6)).as_kelvin(), -1);
}

#[test]
fn density_orders_by_mass_per_volume() {
    let water = Density::new(Mass::from_kilograms(1_000), Volume::from_cubic_metres(1));
    let iron = Density::new(Mass::from_kilograms(7_874), Volume::from_cubic_metres(1));
    assert_eq!(water.mass, Mass::from_kilograms(1_000));
    assert_eq!(water.volume, Volume::from_cubic_metres(1));
    let heavy = Density::new(Mass::from_grams(5), Volume::from_cubic_millimetres(1));
    let light = Density::new(Mass::from_grams(2), Volume::from_cubic_millimetres(1));
    assert_eq!(heavy.cmp(&light), Ordering::Greater);
    assert_eq!(light.cmp(&heavy), Ordering::Less);
    assert_eq!(light.partial_cmp(&light), Some(Ordering::Equal));
    assert_eq!(water.cmp(&iron), Ordering::Less);
    // Both come to one whole milligram in a cubic millimetre.
    let brine = Density::new(Mass::from_kilograms(1_500), Volume::from_cubic_metres(1));
    assert_eq!(water.cmp(&brine), Ordering::Equal);
}

#[test]
fn density_arithmetic() {
    let a = Density::new(Mass::from_grams(5), Volume::from_millilitres(2));
    let b = Density::new(Mass::from_grams(7), Volume::from_millilitres(3));
    let sum = a + b;
    assert_eq!(sum.mass.as_grams(), 12);
    assert_eq!(sum.volume.as_millilitres(), 5);
    let difference = b - a;
    assert_eq!(difference.mass.as_grams(), 2);
    assert_eq!(difference.volume.as_millilitres(), 1);
    let thinned = a / 4;
    assert_eq!(thinned.mass.as_grams(), 5);
    assert_eq!(thinned.volume.as_millilitres(), 8);
    let total = Density::sum(&vec![a, b, a]);
    assert_eq!(total.mass.as_grams(), 17);
    assert_eq!(total.volume.as_millilitres(), 7);
    assert_eq!(Density::sum(&vec![]), Density::new(Mass::from_grams(0), Volume::from_litres(0)));
}

#[test]
fn density_relates_mass_and_volume() {
    let density = Density::new(Mass::from_grams(6), Volume::from_cubic_millimetres(3));
    let mass = density * Volume::from_cubic_millimetres(2);
    assert_eq!(mass.as_milligrams(), 4_000);
    let volume = Mass::from_grams(12) / density;
    assert_eq!(volume.as_cubic_millimetres(), 6);
}

#[test]
fn heat_capacity_orders_by_energy_per_mass() {
    let water = HeatCapacity { energy: Energy::from_joules(4_184), mass: Mass::from_kilograms(1) };
    let iron = HeatCapacity { energy: Energy::from_joules(449), mass: Mass::from_kilograms(1) };
    assert_eq!(water.cmp(&iron), Ordering::Greater);
    assert_eq!(iron.cmp(&water), Ordering::Less);
    assert_eq!(iron.partial_cmp(&iron), Some(Ordering::Equal));
    let sum = water + iron;
    assert_eq!(sum.energy.as_joules(), 4_633);
    assert_eq!(sum.mass.as_kilograms(), 2);
    let difference = water - iron;
    assert_eq!(difference.energy.as_joules(), 3_735);
    assert_eq!(difference.mass.as_kilograms(), 0);
}
