pub mod area;
pub mod density;
pub mod distance;
pub mod energy;
pub mod factors;
pub mod heat_capacity;
pub mod mass;
pub mod temperature;
pub mod volume;

pub use self::area::Area;
pub use self::density::Density;
pub use self::distance::Distance;
pub use self::energy::Energy;
pub use self::factors::UnitT;
pub use self::heat_capacity::HeatCapacity;
pub use self::mass::Mass;
pub use self::temperature::Temperature;
pub use self::volume::Volume;
