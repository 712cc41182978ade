pub mod basic_material_instance;
pub mod basic_material_properties;
pub mod compound_material_instance;
pub mod compound_material_properties;
pub mod material_instance;
pub mod material_manager;
pub mod material_properties;
pub mod materials_plugin;
pub mod thermal_properties;

pub use self::basic_material_instance::BasicMaterialInstance;
pub use self::basic_material_properties::BasicMaterialProperties;
pub use self::compound_material_instance::CompoundMaterialInstance;
pub use self::compound_material_properties::{ComposingMaterial, CompoundMaterialProperties};
pub use self::material_instance::MaterialInstance;
pub use self::material_manager::{MaterialID, MaterialManager};
pub use self::material_properties::MaterialProperties;
pub use self::materials_plugin::MaterialsPlugin;
pub use self::thermal_properties::ThermalProperties;
