use common::ai::{AiState, Brain};
use common::loaders::kdl_loader::can_be_parsed;
use common::loaders::{KdlLoader, KdlLoaderError};
use common::materials::materials_plugin::{
    basic_material, create_basic_material_from_config, create_compound_material_from_config,
    load_materials, BasicMaterialConfig, ConfigError,
};
use common::materials::compound_material_instance::calculate_compound_density;
use common::materials::{
    BasicMaterialInstance, BasicMaterialProperties, ComposingMaterial, CompoundMaterialInstance,
    CompoundMaterialProperties, MaterialID, MaterialInstance, MaterialManager, MaterialProperties,
    MaterialsPlugin, ThermalProperties,
};
use common::network::events::Entity;
use common::network::{NetworkMessages, Position};
use common::units::{Density, Energy, HeatCapacity, Mass, Temperature, Volume};

const CONFIG: &str = r#"
define_basic_material {
    name "Iron"
    density 7874
    thermal_properties {
        heat_capacity 449
        melting_point 1811
        boiling_point 3134
    }
}
define_basic_material {
    name "Titanium"
    density 4506
    thermal_properties {
        heat_capacity 523
        melting_point 1941
        boiling_point 3560
    }
}
define_compound_material {
    name "Ilmenite"
    composition {
        basic_material name="Iron" mean=0.4 sd=0.05
        basic_material name="Titanium" mean=0.6 sd=0.05
        basic_material name="Unobtainium" mean=0.1 sd=0.01
    }
}
"#;

fn iron() -> MaterialProperties {
    basic_material(BasicMaterialConfig {
        name: String::from("Iron"),
        density: 7_874,
        heat_capacity: 449,
        melting_point: 1_811,
        boiling_point: 3_134,
    })
    .unwrap()
}

fn register(manager: &mut MaterialManager, material: MaterialProperties) -> MaterialID {
    manager.register_material(material)
}

#[test]
fn a_basic_material_is_built_from_its_numbers() {
    match iron() {
        MaterialProperties::Basic(BasicMaterialProperties { name, density, thermal_properties }) => {
            assert_eq!(name, "Iron");
            assert_eq!(density, Density::new(Mass::from_kilograms(7_874), Volume::from_cubic_metres(1)));
            assert_eq!(
                thermal_properties,
                ThermalProperties {
                    heat_capacity: HeatCapacity {
                        energy: Energy::from_joules(449),
                        mass: Mass::from_kilograms(1),
                    },
                    melting_point: Temperature::from_kelvin(1_811),
                    boiling_point: Temperature::from_kelvin(3_134),
                }
            );
        }
        MaterialProperties::Compound(_) => panic!("iron is a basic material"),
    }
}

#[test]
fn a_quantity_that_cannot_be_stored_is_out_of_range() {
    let heavy = BasicMaterialConfig {
        name: String::from("Neutronium"),
        density: i64::MAX / 1_000,
        heat_capacity: 1,
        melting_point: 1,
        boiling_point: 2,
    };
    assert!(matches!(basic_material(heavy), Err(ConfigError::OutOfRange)));
    let hot = BasicMaterialConfig {
        name: String::from("Plasma"),
        density: 1,
        heat_capacity: i64::MIN,
        melting_point: 1,
        boiling_point: 2,
    };
    assert!(matches!(basic_material(hot), Err(ConfigError::OutOfRange)));
}

#[test]
fn materials_are_registered_and_found() {
    let mut manager = MaterialManager::new();
    assert!(manager.get_material_id("Iron").is_none());
    assert_eq!(manager.register_material_as(MaterialID(5), iron()).ok(), Some(MaterialID(5)));
    assert!(manager.register_material_as(MaterialID(5), iron()).is_err());
    assert_eq!(manager.get_material_id("Iron"), Some(MaterialID(5)));
    assert_eq!(manager.get_material_id("Gold"), None);
    assert!(matches!(manager.get_material(MaterialID(5)), Some(MaterialProperties::Basic(_))));
    assert!(manager.get_material(MaterialID(6)).is_none());
    assert_eq!(
        manager.generate_material_instance(MaterialID(5)),
        Some(BasicMaterialInstance(MaterialID(5)))
    );
    assert_eq!(manager.generate_material_instance(MaterialID(6)), None);
    let drawn = register(&mut manager, iron());
    assert!(drawn != MaterialID(5));
    assert!(manager.get_material(drawn).is_some());
    let mut ids = manager.ids();
    ids.sort_by_key(|id| id.0);
    let mut expected = vec![MaterialID(5), drawn];
    expected.sort_by_key(|id| id.0);
    assert_eq!(ids, expected);
    assert_eq!(MaterialManager::new().ids(), vec![]);
}

#[test]
fn the_plugin_starts_without_materials() {
    let manager = MaterialsPlugin.build();
    assert_eq!(manager.ids(), vec![]);
    assert_eq!(manager.get_material_id("Iron"), None);
}

#[test]
fn a_taken_identifier_gives_way_to_the_least_free_one() {
    let mut manager = MaterialManager::new();
    assert_eq!(manager.free_id(MaterialID(7)), MaterialID(7));
    for id in [0u64, 1, 2, 7] {
        assert!(manager.register_material_as(MaterialID(id), iron()).is_ok());
    }
    assert_eq!(manager.free_id(MaterialID(9)), MaterialID(9));
    assert_eq!(manager.free_id(MaterialID(7)), MaterialID(3));
    assert_eq!(manager.free_id(MaterialID(0)), MaterialID(3));
    assert!(manager.register_material_as(MaterialID(3), iron()).is_ok());
    assert_eq!(manager.free_id(MaterialID(3)), MaterialID(4));
    let before = manager.ids().len();
    for _ in 0..20 {
        let id = manager.register_material(iron());
        assert!(manager.get_material(id).is_some());
    }
    assert_eq!(manager.ids().len(), before + 20);
}

#[test]
fn a_text_that_the_parser_cannot_report_on_is_no_document() {
    for text in ["(true)", "(null)", "(false)", "(true)\u{e9}\u{e9}", "node (null)", "a (false)1"] {
        assert_eq!(
            KdlLoader.load(Some(text.as_bytes().to_vec())).err(),
            Some(KdlLoaderError::InvalidKdlDocument)
        );
        assert!(!can_be_parsed(text));
    }
    // Such a place counts wherever it stands.
    assert!(!can_be_parsed("node \"(true)\""));
    // The parser turns these down itself.
    for text in ["(true) node\n", "(null)node 1 2 3\n", "(false)\u{e9}\u{e9}\u{e9}\n"] {
        assert!(can_be_parsed(text));
        assert_eq!(
            KdlLoader.load(Some(text.as_bytes().to_vec())).err(),
            Some(KdlLoaderError::InvalidKdlDocument)
        );
    }
    // A longer word is no reserved word.
    for text in ["(truex)n", "(nullable)n 1\n", "(true-type)font \"x\"\n", "node true\n", "node null", "n (t)true"] {
        assert!(can_be_parsed(text));
        assert!(KdlLoader.load(Some(text.as_bytes().to_vec())).is_ok());
    }
}

#[test]
fn a_compound_is_no_basic_sample() {
    let mut manager = MaterialManager::new();
    let compound = MaterialProperties::Compound(CompoundMaterialProperties {
        name: String::from("Ilmenite"),
        composition: vec![ComposingMaterial { id: MaterialID(1), mean: 0.5f64.to_bits(), sd: 0.1f64.to_bits() }],
    });
    assert!(manager.register_material_as(MaterialID(9), compound).is_ok());
    assert_eq!(manager.generate_material_instance(MaterialID(9)), None);
    assert_eq!(manager.get_material_id("Ilmenite"), Some(MaterialID(9)));
}

#[test]
fn the_density_of_a_mix() {
    let parts = vec![
        Density::new(Mass::from_milligrams(400), Volume::from_cubic_metres(1)),
        Density::new(Mass::from_milligrams(600), Volume::from_cubic_metres(1)),
    ];
    let density = calculate_compound_density(&parts, 2);
    assert_eq!(density.mass.as_milligrams(), 1_000);
    assert_eq!(density.volume.as_cubic_metres(), 4);
    let instance = CompoundMaterialInstance::new(
        MaterialID(3),
        vec![0.4f32.to_bits(), 0.6f32.to_bits()],
        &parts,
        2,
    );
    assert_eq!(instance.properties, MaterialID(3));
    assert_eq!(instance.ratios, vec![0.4f32.to_bits(), 0.6f32.to_bits()]);
    assert_eq!(instance.density, density);
    assert!(matches!(MaterialInstance::Compound(instance), MaterialInstance::Compound(_)));
}

#[test]
fn a_document_is_loaded_from_bytes() {
    let loader = KdlLoader;
    assert_eq!(loader.extensions(), vec!["kdl"]);
    assert!(loader.load(Some(CONFIG.as_bytes().to_vec())).is_ok());
    assert_eq!(loader.load(None).err(), Some(KdlLoaderError::ReaderFailure));
    assert_eq!(loader.load(Some(vec![0xff, 0xfe])).err(), Some(KdlLoaderError::FailedToReadText));
    assert_eq!(
        loader.load(Some(b"node {".to_vec())).err(),
        Some(KdlLoaderError::InvalidKdlDocument)
    );
}

#[test]
fn materials_are_loaded_from_a_document() {
    let asset = KdlLoader.load(Some(CONFIG.as_bytes().to_vec())).unwrap();
    let mut manager = MaterialManager::new();
    assert_eq!(load_materials(&asset.0, &mut manager), Ok(()));
    let iron = manager.get_material_id("Iron").unwrap();
    let titanium = manager.get_material_id("Titanium").unwrap();
    let ilmenite = manager.get_material_id("Ilmenite").unwrap();
    match manager.get_material(iron) {
        Some(MaterialProperties::Basic(material)) => {
            assert_eq!(material.density.mass.as_kilograms(), 7_874);
            assert_eq!(material.density.volume.as_cubic_metres(), 1);
            assert_eq!(material.thermal_properties.heat_capacity.energy.as_joules(), 449);
            assert_eq!(material.thermal_properties.melting_point.as_kelvin(), 1_811);
            assert_eq!(material.thermal_properties.boiling_point.as_kelvin(), 3_134);
        }
        _ => panic!("iron is a basic material"),
    }
    match manager.get_material(ilmenite) {
        Some(MaterialProperties::Compound(material)) => {
            assert_eq!(
                material.composition,
                vec![
                    ComposingMaterial { id: iron, mean: 0.4f64.to_bits(), sd: 0.05f64.to_bits() },
                    ComposingMaterial { id: titanium, mean: 0.6f64.to_bits(), sd: 0.05f64.to_bits() },
                ]
            );
        }
        _ => panic!("ilmenite is a compound"),
    }
}

#[test]
fn nodes_that_define_nothing() {
    let parse = |text: &str| KdlLoader.load(Some(text.as_bytes().to_vec())).unwrap();
    let mut manager = MaterialManager::new();
    let unknown = parse("define_alloy {\n name \"Steel\"\n}\n");
    assert_eq!(load_materials(&unknown.0, &mut manager), Err(ConfigError::Unsupported));
    let bare = parse("define_basic_material\ndefine_compound_material");
    assert_eq!(load_materials(&bare.0, &mut manager), Ok(()));
    assert_eq!(create_basic_material_from_config(&bare.0.nodes()[0], &mut manager), Ok(None));
    assert_eq!(create_compound_material_from_config(&bare.0.nodes()[1], &mut manager), Ok(None));
    let incomplete = parse("define_basic_material {\n name \"Iron\"\n}\n");
    assert_eq!(load_materials(&incomplete.0, &mut manager), Err(ConfigError::Missing));
    let mistyped = parse("define_basic_material {\n name 5\n density 1\n thermal_properties {\n heat_capacity 1\n melting_point 1\n boiling_point 1\n }\n}\n");
    assert_eq!(load_materials(&mistyped.0, &mut manager), Err(ConfigError::Missing));
    let odd = parse("define_compound_material {\n name \"Mix\"\n composition {\n alloy name=\"Iron\" mean=0.5 sd=0.1\n }\n}\n");
    assert_eq!(load_materials(&odd.0, &mut manager), Err(ConfigError::Unsupported));
    let unfinished = parse("define_compound_material {\n name \"Mix\"\n composition {\n basic_material name=\"Iron\" mean=0.5\n }\n}\n");
    assert_eq!(load_materials(&unfinished.0, &mut manager), Err(ConfigError::Missing));
    let heavy = parse("define_basic_material {\n name \"X\"\n density 9223372036854775807\n thermal_properties {\n heat_capacity 1\n melting_point 1\n boiling_point 1\n }\n}\n");
    assert_eq!(load_materials(&heavy.0, &mut manager), Err(ConfigError::OutOfRange));
    assert!(manager.get_material_id("Iron").is_none());
    assert!(manager.get_material_id("Mix").is_none());
}

#[test]
fn plain_data_types() {
    let brain = Brain {
        id: 1,
        state: AiState::Gather,
        target_entity: Some(Entity::from_bits(4)),
        target_position: None,
    };
    assert_eq!(brain.state, AiState::Gather);
    assert!(AiState::Mining != AiState::Rest);
    assert!(AiState::Return != AiState::Sell);
    let position = Position { client: Entity::from_bits(2), pos: [1, 2, 3] };
    assert_eq!(NetworkMessages::Position(position), NetworkMessages::Position(position));
    let input = common::input::PlayerInput::default();
    assert_eq!(input.left + input.right + input.forward + input.backward, 0);
    assert!(NetworkMessages::PlayerInput(input) != NetworkMessages::CreateEntity(Entity::from_bits(2)));
    assert!(NetworkMessages::DestroyEntity(Entity::from_bits(2)) != NetworkMessages::CreateEntity(Entity::from_bits(2)));
}

fn parse(text: &str) -> common::loaders::KdlAsset {
    KdlLoader.load(Some(text.as_bytes().to_vec())).unwrap()
}

fn load(text: &str) -> (MaterialManager, Result<(), ConfigError>) {
    let mut manager = MaterialManager::new();
    let outcome = load_materials(&parse(text).0, &mut manager);
    (manager, outcome)
}

#[test]
fn the_first_node_of_a_name_counts() {
    let (manager, outcome) = load(
        "define_basic_material {\n name \"Iron\"\n name \"Gold\"\n density 7874\n density 1\n thermal_properties {\n heat_capacity 449\n melting_point 1811\n boiling_point 3134\n }\n}\n",
    );
    assert_eq!(outcome, Ok(()));
    assert!(manager.get_material_id("Gold").is_none());
    let iron = manager.get_material_id("Iron").unwrap();
    match manager.get_material(iron) {
        Some(MaterialProperties::Basic(material)) => {
            assert_eq!(material.density.mass.as_kilograms(), 7_874)
        }
        _ => panic!("iron is a basic material"),
    }
}

#[test]
fn the_first_argument_counts_and_properties_are_passed_over() {
    let (manager, outcome) = load(
        "define_basic_material {\n name lang=\"en\" \"Iron\" \"Ferrum\"\n density unit=\"kg\" 7874 5\n thermal_properties {\n heat_capacity 449\n melting_point 1811\n boiling_point 3134\n }\n}\n",
    );
    assert_eq!(outcome, Ok(()));
    assert!(manager.get_material_id("Ferrum").is_none());
    assert!(manager.get_material_id("en").is_none());
    assert!(manager.get_material_id("Iron").is_some());
}

#[test]
fn the_last_property_of_a_name_counts() {
    let (manager, outcome) = load(
        "define_basic_material {\n name \"Iron\"\n density 7874\n thermal_properties {\n heat_capacity 449\n melting_point 1811\n boiling_point 3134\n }\n}\ndefine_compound_material {\n name \"Mix\"\n composition {\n basic_material name=\"Gold\" name=\"Iron\" mean=0.1 mean=0.4 sd=0.05\n }\n}\n",
    );
    assert_eq!(outcome, Ok(()));
    let iron = manager.get_material_id("Iron").unwrap();
    let mix = manager.get_material_id("Mix").unwrap();
    match manager.get_material(mix) {
        Some(MaterialProperties::Compound(material)) => assert_eq!(
            material.composition,
            vec![ComposingMaterial { id: iron, mean: 0.4f64.to_bits(), sd: 0.05f64.to_bits() }]
        ),
        _ => panic!("the mix is a compound"),
    }
}

#[test]
fn a_node_counts_by_its_name_as_written() {
    let (manager, outcome) = load(
        "\"define_basic_material\" {\n name \"Iron\"\n density 7874\n thermal_properties {\n heat_capacity 449\n melting_point 1811\n boiling_point 3134\n }\n}\n",
    );
    assert_eq!(outcome, Err(ConfigError::Unsupported));
    assert_eq!(manager.ids(), vec![]);
}

#[test]
fn a_value_of_another_kind_is_missing() {
    let fraction = "define_basic_material {\n name \"Iron\"\n density 7874.5\n thermal_properties {\n heat_capacity 449\n melting_point 1811\n boiling_point 3134\n }\n}\n";
    assert_eq!(load(fraction).1, Err(ConfigError::Missing));
    let whole = "define_compound_material {\n name \"Mix\"\n composition {\n basic_material name=\"Iron\" mean=1 sd=0.05\n }\n}\n";
    assert_eq!(load(whole).1, Err(ConfigError::Missing));
    let no_block = "define_compound_material {\n name \"Mix\"\n composition\n}\n";
    assert_eq!(load(no_block).1, Err(ConfigError::Missing));
    let nameless = "define_compound_material {\n composition {\n basic_material name=\"Iron\" mean=0.5 sd=0.05\n }\n}\n";
    assert_eq!(load(nameless).1, Err(ConfigError::Missing));
}

#[test]
fn loading_stops_at_the_first_node_that_fails() {
    let (manager, outcome) = load(
        "define_basic_material {\n name \"Iron\"\n density 7874\n thermal_properties {\n heat_capacity 449\n melting_point 1811\n boiling_point 3134\n }\n}\ndefine_alloy\ndefine_basic_material {\n name \"Gold\"\n density 19300\n thermal_properties {\n heat_capacity 129\n melting_point 1337\n boiling_point 3243\n }\n}\n",
    );
    assert_eq!(outcome, Err(ConfigError::Unsupported));
    assert!(manager.get_material_id("Iron").is_some());
    assert!(manager.get_material_id("Gold").is_none());
    assert_eq!(manager.ids().len(), 1);
}

#[test]
fn the_first_failing_component_gives_the_error() {
    let text = "define_compound_material {\n name \"Mix\"\n composition {\n basic_material name=\"Iron\" mean=0.5\n alloy name=\"Steel\" mean=0.5 sd=0.1\n }\n}\n";
    assert_eq!(load(text).1, Err(ConfigError::Missing));
    let text = "define_compound_material {\n name \"Mix\"\n composition {\n alloy name=\"Steel\" mean=0.5 sd=0.1\n basic_material name=\"Iron\" mean=0.5\n }\n}\n";
    assert_eq!(load(text).1, Err(ConfigError::Unsupported));
    let (manager, outcome) = load(
        "define_compound_material {\n name \"Void\"\n composition {\n basic_material name=\"Iron\" mean=0.5 sd=0.1\n }\n}\n",
    );
    assert_eq!(outcome, Ok(()));
    let void = manager.get_material_id("Void").unwrap();
    match manager.get_material(void) {
        Some(MaterialProperties::Compound(material)) => assert_eq!(material.composition, vec![]),
        _ => panic!("the void is a compound"),
    }
}
