use super::basic_material_properties::BasicMaterialProperties;
use super::compound_material_properties::{ComposingMaterial, CompoundMaterialProperties};
use super::material_manager::{MaterialID, MaterialManager};
use super::material_properties::MaterialProperties;
use super::thermal_properties::ThermalProperties;
use crate::loaders::document_model::{
    argument_at, contents_of, document_contents, document_option, entry_contents, entry_option,
    first_integer, first_text, named_node, node_contents, node_option, property_fraction,
    property_named, property_text, text_option, value_contents, NodeModel,
};
use crate::units::factors::{fits, JOULES, KILOGRAM};
use crate::units::{Density, Energy, HeatCapacity, Mass, Temperature, Volume};
use kdl::{KdlDocument, KdlEntry, KdlNode, KdlValue};
use vstd::prelude::*;

verus! {

/// `kdl::KdlNode`, a node of a document. Verus does not look into it.
#[verifier::external_type_specification]
#[verifier::external_body]
pub struct ExKdlNode(kdl::KdlNode);

/// `kdl::KdlEntry`, an argument or a property of a node. Verus does not look
/// into it.
#[verifier::external_type_specification]
#[verifier::external_body]
pub struct ExKdlEntry(kdl::KdlEntry);

/// `kdl::KdlValue`, the value of an entry. Verus does not look into it.
#[verifier::external_type_specification]
#[verifier::external_body]
pub struct ExKdlValue(kdl::KdlValue);

/// Loads the materials that the configuration files define.
pub struct MaterialsPlugin;

impl MaterialsPlugin {
    /// The manager that the materials are loaded into: it knows none yet.
    pub fn build(&self) -> (manager: MaterialManager)
        ensures
            manager@ == Map::<u64, MaterialProperties>::empty(),
    {
        MaterialManager::new()
    }
}

/// Why a node of a configuration file defines no material.
#[derive(Clone, Copy, Debug, PartialEq, Eq, Structural)]
pub enum ConfigError {
    /// A node or a value that a definition needs is not there, or is of
    /// another kind.
    Missing,
    /// A quantity is too large to be stored in its base unit.
    OutOfRange,
    /// The node is of a kind that is not known.
    Unsupported,
}

/// `KdlDocument::nodes`: the nodes of a document, which are what the document
/// holds.
#[verifier::external_body]
fn nodes_of(document: &KdlDocument) -> (nodes: &[KdlNode])
    ensures
        contents_of(nodes@) == document_contents(*document),
{
    document.nodes()
}

/// `KdlDocument::get`: the first node of the document that has the given
/// name, where one has.
#[verifier::external_body]
fn child_named<'a>(document: &'a KdlDocument, name: &str) -> (node: Option<&'a KdlNode>)
    ensures
        node_option(node) == named_node(document_contents(*document), name@),
{
    document.get(name)
}

/// `KdlNode::children`: the document below a node, where the node has a
/// block. It holds the nodes below the node.
#[verifier::external_body]
fn children_of(node: &KdlNode) -> (children: Option<&KdlDocument>)
    ensures
        document_option(children) == node_contents(*node).children,
{
    node.children()
}

/// `KdlNode::name`, turned into text by its `Display`: the text that the
/// node's name is written as.
#[verifier::external_body]
fn name_of(node: &KdlNode) -> (name: String)
    ensures
        name@ == node_contents(*node).shown,
{
    node.name().to_string()
}

/// `KdlNode::get` with a number: the argument at that place, where the
/// node has as many. The place is below the largest number, to which the
/// search adds one.
#[verifier::external_body]
fn argument_of(node: &KdlNode, index: usize) -> (entry: Option<&KdlEntry>)
    requires
        index < usize::MAX,
    ensures
        entry_option(entry) == argument_at(node_contents(*node).entries, index as int),
{
    node.get(index)
}

/// `KdlNode::get` with a name: the property of that name, where the node
/// has one; the last, where it has several.
#[verifier::external_body]
fn property_of<'a>(node: &'a KdlNode, key: &str) -> (entry: Option<&'a KdlEntry>)
    ensures
        entry_option(entry) == property_named(node_contents(*node).entries, key@),
{
    node.get(key)
}

/// `KdlEntry::value`: the value of an argument or a property.
#[verifier::external_body]
fn value_of(entry: &KdlEntry) -> (value: &KdlValue)
    ensures
        value_contents(*value) == entry_contents(*entry).value,
{
    entry.value()
}

/// `KdlValue::as_string`, copied out: the text of a value that is a text,
/// and nothing for any other value.
#[verifier::external_body]
fn text_in(value: &KdlValue) -> (text: Option<String>)
    ensures
        text_option(text) == value_contents(*value).text(),
{
    value.as_string().map(String::from)
}

/// `KdlValue::as_i64`: the number of a value that is a whole number, and
/// nothing for any other value.
#[verifier::external_body]
fn integer_in(value: &KdlValue) -> (number: Option<i64>)
    ensures
        number == value_contents(*value).integer(),
{
    value.as_i64()
}

/// `KdlValue::as_f64`, as a bit pattern: the number of a value that is a
/// decimal fraction, and nothing for any other value.
#[verifier::external_body]
fn fraction_in(value: &KdlValue) -> (bits: Option<u64>)
    ensures
        bits == value_contents(*value).fraction(),
{
    value.as_f64().map(|number| number.to_bits())
}

/// The numbers and the name that define a basic material.
#[derive(Debug)]
pub struct BasicMaterialConfig {
    pub name: String,
    /// Kilograms in a cubic metre.
    pub density: i64,
    /// Joules that warm a kilogram by one kelvin.
    pub heat_capacity: i64,
    /// Kelvin.
    pub melting_point: i64,
    /// Kelvin.
    pub boiling_point: i64,
}

/// The numbers and the name that define a basic material, as plain values.
pub struct BasicDefinition {
    pub name: Seq<char>,
    pub density: i64,
    pub heat_capacity: i64,
    pub melting_point: i64,
    pub boiling_point: i64,
}

impl View for BasicMaterialConfig {
    type V = BasicDefinition;

    open spec fn view(&self) -> BasicDefinition {
        BasicDefinition {
            name: self.name@,
            density: self.density,
            heat_capacity: self.heat_capacity,
            melting_point: self.melting_point,
            boiling_point: self.boiling_point,
        }
    }
}

/// The definition as plain values, where there is one.
pub open spec fn definition_option(config: Option<BasicMaterialConfig>) -> Option<BasicDefinition> {
    match config {
        Some(config) => Some(config@),
        None => None,
    }
}

/// Whether the quantities of a definition can be stored in their base units.
pub open spec fn storable(config: BasicDefinition) -> bool {
    fits(config.density * KILOGRAM) && fits(config.heat_capacity * JOULES)
}

/// Whether `material` is what `config` defines: a basic material of that
/// name, with the density over one cubic metre, the heat capacity over one
/// kilogram, and the two temperatures.
pub open spec fn defined_by(material: MaterialProperties, config: BasicDefinition) -> bool {
    &&& material matches MaterialProperties::Basic(basic)
    &&& basic.name@ == config.name
    &&& basic.density.mass.micrograms() == config.density * KILOGRAM
    &&& basic.density.volume.cubic_millimetres() == 1_000_000_000
    &&& basic.thermal_properties.heat_capacity.energy.microjoules() == config.heat_capacity
        * JOULES
    &&& basic.thermal_properties.heat_capacity.mass.micrograms() == KILOGRAM
    &&& basic.thermal_properties.melting_point.kelvin() == config.melting_point
    &&& basic.thermal_properties.boiling_point.kelvin() == config.boiling_point
}

/// Whether `material` is what some definition defines: a basic material whose
/// density is a whole number of kilograms over one cubic metre, and whose
/// heat capacity is a whole number of joules over one kilogram.
pub open spec fn well_defined(material: MaterialProperties) -> bool {
    &&& material matches MaterialProperties::Basic(basic)
    &&& basic.density.mass.micrograms() % (KILOGRAM as int) == 0
    &&& basic.density.volume.cubic_millimetres() == 1_000_000_000
    &&& basic.thermal_properties.heat_capacity.energy.microjoules() % (JOULES as int) == 0
    &&& basic.thermal_properties.heat_capacity.mass.micrograms() == KILOGRAM
}

/// What a definition defines is well defined.
pub proof fn lemma_defined_is_well_defined(material: MaterialProperties, config: BasicDefinition)
    requires
        defined_by(material, config),
    ensures
        well_defined(material),
{
    assert((config.density * KILOGRAM) % (KILOGRAM as int) == 0) by (nonlinear_arith);
    assert((config.heat_capacity * JOULES) % (JOULES as int) == 0) by (nonlinear_arith);
}

/// The basic material that a definition describes, or `OutOfRange` where one
/// of its quantities cannot be stored.
pub fn basic_material(config: BasicMaterialConfig) -> (res: Result<MaterialProperties, ConfigError>)
    ensures
        storable(config@) ==> res is Ok && defined_by(res->Ok_0, config@),
        !storable(config@) ==> res == Err::<MaterialProperties, ConfigError>(
            ConfigError::OutOfRange,
        ),
{
    if config.density.checked_mul(KILOGRAM).is_none() {
        return Err(ConfigError::OutOfRange);
    }
    if config.heat_capacity.checked_mul(JOULES).is_none() {
        return Err(ConfigError::OutOfRange);
    }
    Ok(
        MaterialProperties::Basic(
            BasicMaterialProperties {
                name: config.name,
                density: Density {
                    mass: Mass::from_kilograms(config.density),
                    volume: Volume::from_cubic_metres(1),
                },
                thermal_properties: ThermalProperties {
                    heat_capacity: HeatCapacity {
                        energy: Energy::from_joules(config.heat_capacity),
                        mass: Mass::from_kilograms(1),
                    },
                    melting_point: Temperature::from_kelvin(config.melting_point),
                    boiling_point: Temperature::from_kelvin(config.boiling_point),
                },
            },
        ),
    )
}

/// The text that is the first argument of the node of the given name.
fn text_at(document: &KdlDocument, name: &str) -> (text: Option<String>)
    ensures
        text_option(text) == first_text(document_contents(*document), name@),
{
    match child_named(document, name) {
        Some(node) => match argument_of(node, 0) {
            Some(entry) => text_in(value_of(entry)),
            None => None,
        },
        None => None,
    }
}

/// The whole number that is the first argument of the node of the given name.
fn integer_at(document: &KdlDocument, name: &str) -> (number: Option<i64>)
    ensures
        number == first_integer(document_contents(*document), name@),
{
    match child_named(document, name) {
        Some(node) => match argument_of(node, 0) {
            Some(entry) => integer_in(value_of(entry)),
            None => None,
        },
        None => None,
    }
}

/// The definition of a basic material that the nodes below its node spell:
/// the text of `name`, the whole number of `density`, and below
/// `thermal_properties` the whole numbers of `heat_capacity`, `melting_point`
/// and `boiling_point`. There is none where one of them is not there.
pub open spec fn basic_definition(nodes: Seq<NodeModel>) -> Option<BasicDefinition> {
    match (
        first_text(nodes, "name"@),
        first_integer(nodes, "density"@),
        thermal_nodes(nodes),
    ) {
        (Some(name), Some(density), Some(thermal)) => match (
            first_integer(thermal, "heat_capacity"@),
            first_integer(thermal, "melting_point"@),
            first_integer(thermal, "boiling_point"@),
        ) {
            (Some(heat_capacity), Some(melting_point), Some(boiling_point)) => Some(
                BasicDefinition { name, density, heat_capacity, melting_point, boiling_point },
            ),
            _ => None,
        },
        _ => None,
    }
}

/// The nodes below the first node that is named `thermal_properties`.
pub open spec fn thermal_nodes(nodes: Seq<NodeModel>) -> Option<Seq<NodeModel>> {
    match named_node(nodes, "thermal_properties"@) {
        Some(node) => node.children,
        None => None,
    }
}

/// Reads the definition of a basic material off the nodes below its node.
fn read_basic_material(children: &KdlDocument) -> (config: Option<BasicMaterialConfig>)
    ensures
        definition_option(config) == basic_definition(document_contents(*children)),
{
    let name = text_at(children, "name")?;
    let density = integer_at(children, "density")?;
    let thermal_properties = children_of(child_named(children, "thermal_properties")?)?;
    let heat_capacity = integer_at(thermal_properties, "heat_capacity")?;
    let melting_point = integer_at(thermal_properties, "melting_point")?;
    let boiling_point = integer_at(thermal_properties, "boiling_point")?;
    Some(BasicMaterialConfig { name, density, heat_capacity, melting_point, boiling_point })
}

/// Whether every material of `before` is in `after` under the same identifier.
pub open spec fn keeps(
    before: Map<u64, MaterialProperties>,
    after: Map<u64, MaterialProperties>,
) -> bool {
    forall|key: u64| #[trigger]
        before.contains_key(key) ==> after.contains_key(key) && after[key] == before[key]
}

/// What registering the material of a definition comes to: the material is
/// there under an identifier that was free, and nothing else has changed.
pub open spec fn registered_basic(
    definition: BasicDefinition,
    before: Map<u64, MaterialProperties>,
    after: Map<u64, MaterialProperties>,
    res: Result<Option<MaterialID>, ConfigError>,
) -> bool {
    match res {
        Ok(Some(id)) => {
            &&& !before.contains_key(id.0)
            &&& after.dom() == before.dom().insert(id.0)
            &&& keeps(before, after)
            &&& defined_by(after[id.0], definition)
        },
        _ => false,
    }
}

/// What a node that is to define a basic material comes to. A node without a
/// block defines nothing, and that is no error. A block that spells no
/// definition is `Missing`, a definition with a quantity that cannot be
/// stored is `OutOfRange`, and either leaves the materials as they are.
/// Otherwise the material of the definition is registered.
pub open spec fn basic_outcome(
    node: NodeModel,
    before: Map<u64, MaterialProperties>,
    after: Map<u64, MaterialProperties>,
    res: Result<Option<MaterialID>, ConfigError>,
) -> bool {
    match node.children {
        None => res == Ok::<Option<MaterialID>, ConfigError>(None) && after == before,
        Some(children) => match basic_definition(children) {
            None => res == Err::<Option<MaterialID>, ConfigError>(ConfigError::Missing) && after
                == before,
            Some(definition) => if storable(definition) {
                registered_basic(definition, before, after, res)
            } else {
                res == Err::<Option<MaterialID>, ConfigError>(ConfigError::OutOfRange) && after
                    == before
            },
        },
    }
}

/// Registers the basic material that a node defines and returns its
/// identifier. A node without nodes below it defines nothing. No material
/// that was registered before is touched, whatever the node holds.
pub fn create_basic_material_from_config(
    config: &KdlNode,
    material_manager: &mut MaterialManager,
) -> (res: Result<Option<MaterialID>, ConfigError>)
    ensures
        basic_outcome(
            node_contents(*config),
            old(material_manager)@,
            final(material_manager)@,
            res,
        ),
        keeps(old(material_manager)@, final(material_manager)@),
        match res {
            Ok(Some(id)) => {
                &&& !old(material_manager)@.contains_key(id.0)
                &&& final(material_manager)@.dom() == old(material_manager)@.dom().insert(id.0)
                &&& well_defined(final(material_manager)@[id.0])
            },
            _ => final(material_manager)@ == old(material_manager)@,
        },
{
    match children_of(config) {
        None => Ok(None),
        Some(children) => match read_basic_material(children) {
            None => Err(ConfigError::Missing),
            Some(values) => {
                let ghost config = values@;
                match basic_material(values) {
                    Err(error) => Err(error),
                    Ok(material) => {
                        proof {
                            lemma_defined_is_well_defined(material, config);
                        }
                        Ok(Some(material_manager.register_material(material)))
                    },
                }
            },
        },
    }
}

/// Whether each component is a registered material.
pub open spec fn components_known(
    composition: Seq<ComposingMaterial>,
    materials: Map<u64, MaterialProperties>,
) -> bool {
    forall|i: int| 0 <= i < composition.len() ==> materials.contains_key(
        (#[trigger] composition[i]).id.0,
    )
}

/// What a node of a composition spells: the name of a material with the
/// mean and the standard deviation of its share, both as bit patterns. A node
/// that is not written `basic_material` is `Unsupported`; one that lacks the
/// text `name` or one of the fractions `mean` and `sd` is `Missing`.
pub open spec fn component_reading(node: NodeModel) -> Result<(Seq<char>, u64, u64), ConfigError> {
    if node.shown != "basic_material"@ {
        Err(ConfigError::Unsupported)
    } else {
        match (
            property_text(node.entries, "name"@),
            property_fraction(node.entries, "mean"@),
            property_fraction(node.entries, "sd"@),
        ) {
            (Some(name), Some(mean), Some(sd)) => Ok((name, mean, sd)),
            _ => Err(ConfigError::Missing),
        }
    }
}

/// The error of the first node of a composition that spells no component.
pub open spec fn composition_error(nodes: Seq<NodeModel>) -> Option<ConfigError>
    decreases nodes.len(),
{
    if nodes.len() == 0 {
        None
    } else {
        match composition_error(nodes.drop_last()) {
            Some(error) => Some(error),
            None => match component_reading(nodes.last()) {
                Err(error) => Some(error),
                Ok(_) => None,
            },
        }
    }
}

/// Whether a material of the given name is registered.
pub open spec fn has_name(materials: Map<u64, MaterialProperties>, name: Seq<char>) -> bool {
    exists|key: u64| #[trigger] materials.contains_key(key) && materials[key].name() == name
}

/// What the nodes of a composition spell, in order, but for the components
/// whose material is not registered: those are left out.
pub open spec fn known_readings(
    nodes: Seq<NodeModel>,
    materials: Map<u64, MaterialProperties>,
) -> Seq<(Seq<char>, u64, u64)>
    decreases nodes.len(),
{
    if nodes.len() == 0 {
        Seq::empty()
    } else {
        let earlier = known_readings(nodes.drop_last(), materials);
        match component_reading(nodes.last()) {
            Ok(reading) => if has_name(materials, reading.0) {
                earlier.push(reading)
            } else {
                earlier
            },
            Err(_) => earlier,
        }
    }
}

/// Whether the component is what the reading spells: a registered material
/// of that name, with that mean and that standard deviation.
pub open spec fn component_of(
    component: ComposingMaterial,
    reading: (Seq<char>, u64, u64),
    materials: Map<u64, MaterialProperties>,
) -> bool {
    &&& materials.contains_key(component.id.0)
    &&& materials[component.id.0].name() == reading.0
    &&& component.mean == reading.1
    &&& component.sd == reading.2
}

/// Whether the components are what the readings spell, one for one.
pub open spec fn spells(
    components: Seq<ComposingMaterial>,
    readings: Seq<(Seq<char>, u64, u64)>,
    materials: Map<u64, MaterialProperties>,
) -> bool {
    &&& components.len() == readings.len()
    &&& forall|i: int|
        0 <= i < components.len() ==> component_of(
            #[trigger] components[i],
            readings[i],
            materials,
        )
}

/// An error among the first nodes of a composition is the error of the
/// composition.
proof fn lemma_composition_error_stands(nodes: Seq<NodeModel>, k: int, error: ConfigError)
    requires
        0 <= k <= nodes.len(),
        composition_error(nodes.take(k)) == Some(error),
    ensures
        composition_error(nodes) == Some(error),
    decreases nodes.len() - k,
{
    if k < nodes.len() {
        assert(nodes.take(k + 1).drop_last() =~= nodes.take(k));
        lemma_composition_error_stands(nodes, k + 1, error);
    } else {
        assert(nodes.take(k) =~= nodes);
    }
}

/// Reads the components of a compound off the nodes below its `composition`
/// node. A component whose material is not registered is left out.
fn read_composition(composition: &KdlDocument, material_manager: &MaterialManager) -> (res: Result<
    Vec<ComposingMaterial>,
    ConfigError,
>)
    ensures
        match res {
            Ok(components) => {
                &&& composition_error(document_contents(*composition)) is None
                &&& spells(
                    components@,
                    known_readings(document_contents(*composition), material_manager@),
                    material_manager@,
                )
            },
            Err(error) => composition_error(document_contents(*composition)) == Some(error),
        },
        res is Ok ==> components_known(res->Ok_0@, material_manager@),
{
    let nodes = nodes_of(composition);
    let ghost model = document_contents(*composition);
    let mut components: Vec<ComposingMaterial> = Vec::new();
    let kind = "basic_material".to_owned();
    let mut i: usize = 0;
    assert(model.take(0) =~= Seq::empty());
    while i < nodes.len()
        invariant
            i <= nodes@.len(),
            model == contents_of(nodes@),
            model == document_contents(*composition),
            kind@ == "basic_material"@,
            composition_error(model.take(i as int)) is None,
            spells(
                components@,
                known_readings(model.take(i as int), material_manager@),
                material_manager@,
            ),
            components_known(components@, material_manager@),
        decreases nodes@.len() - i,
    {
        let node = &nodes[i];
        proof {
            assert(model.take(i + 1).drop_last() =~= model.take(i as int));
            assert(model.take(i + 1).last() == model[i as int]);
            assert(node_contents(*node) == model[i as int]);
        }
        if name_of(node) != kind {
            proof {
                lemma_composition_error_stands(model, i + 1, ConfigError::Unsupported);
            }
            return Err(ConfigError::Unsupported);
        }
        let material_name = match property_of(node, "name") {
            Some(entry) => text_in(value_of(entry)),
            None => None,
        };
        let mean = match property_of(node, "mean") {
            Some(entry) => fraction_in(value_of(entry)),
            None => None,
        };
        let sd = match property_of(node, "sd") {
            Some(entry) => fraction_in(value_of(entry)),
            None => None,
        };
        match (material_name, mean, sd) {
            (Some(material_name), Some(mean), Some(sd)) => {
                match material_manager.get_material_id(material_name.as_str()) {
                    Some(id) => {
                        assert(material_manager@.contains_key(id.0));
                        components.push(ComposingMaterial { id, mean, sd });
                    },
                    None => {},
                }
            },
            _ => {
                proof {
                    lemma_composition_error_stands(model, i + 1, ConfigError::Missing);
                }
                return Err(ConfigError::Missing);
            },
        }
        i = i + 1;
    }
    assert(model.take(i as int) =~= model);
    Ok(components)
}

/// The nodes below the first node that is named `composition`.
pub open spec fn composition_nodes(nodes: Seq<NodeModel>) -> Option<Seq<NodeModel>> {
    match named_node(nodes, "composition"@) {
        Some(node) => node.children,
        None => None,
    }
}

/// What registering a compound of the given name and readings comes to: the
/// compound is there under an identifier that was free, made of what the
/// readings spell, and nothing else has changed.
pub open spec fn registered_compound(
    name: Seq<char>,
    readings: Seq<(Seq<char>, u64, u64)>,
    before: Map<u64, MaterialProperties>,
    after: Map<u64, MaterialProperties>,
    res: Result<Option<MaterialID>, ConfigError>,
) -> bool {
    match res {
        Ok(Some(id)) => {
            &&& !before.contains_key(id.0)
            &&& after.dom() == before.dom().insert(id.0)
            &&& keeps(before, after)
            &&& after[id.0] matches MaterialProperties::Compound(compound)
            &&& compound.name@ == name
            &&& spells(compound.composition@, readings, before)
        },
        _ => false,
    }
}

/// What a node that is to define a compound material comes to. A node
/// without a block defines nothing, and that is no error. A block without
/// the text `name` or without a block below `composition` is `Missing`, a
/// composition with a node that spells no component has that node's error,
/// and either leaves the materials as they are. Otherwise the compound is
/// registered, made of the components whose materials are registered.
pub open spec fn compound_outcome(
    node: NodeModel,
    before: Map<u64, MaterialProperties>,
    after: Map<u64, MaterialProperties>,
    res: Result<Option<MaterialID>, ConfigError>,
) -> bool {
    match node.children {
        None => res == Ok::<Option<MaterialID>, ConfigError>(None) && after == before,
        Some(children) => match (first_text(children, "name"@), composition_nodes(children)) {
            (Some(name), Some(composition)) => match composition_error(composition) {
                Some(error) => res == Err::<Option<MaterialID>, ConfigError>(error) && after
                    == before,
                None => registered_compound(
                    name,
                    known_readings(composition, before),
                    before,
                    after,
                    res,
                ),
            },
            _ => res == Err::<Option<MaterialID>, ConfigError>(ConfigError::Missing) && after
                == before,
        },
    }
}

/// Registers the compound material that a node defines and returns its
/// identifier. A node without nodes below it defines nothing. The compound
/// is made of registered materials only, and no material that was registered
/// before is touched, whatever the node holds.
pub fn create_compound_material_from_config(
    config: &KdlNode,
    material_manager: &mut MaterialManager,
) -> (res: Result<Option<MaterialID>, ConfigError>)
    ensures
        compound_outcome(
            node_contents(*config),
            old(material_manager)@,
            final(material_manager)@,
            res,
        ),
        keeps(old(material_manager)@, final(material_manager)@),
        match res {
            Ok(Some(id)) => {
                &&& !old(material_manager)@.contains_key(id.0)
                &&& final(material_manager)@.dom() == old(material_manager)@.dom().insert(id.0)
                &&& final(material_manager)@[id.0] matches MaterialProperties::Compound(compound)
                &&& components_known(compound.composition@, old(material_manager)@)
            },
            _ => final(material_manager)@ == old(material_manager)@,
        },
{
    let children = match children_of(config) {
        None => {
            return Ok(None);
        },
        Some(children) => children,
    };
    let name = match text_at(children, "name") {
        None => {
            return Err(ConfigError::Missing);
        },
        Some(name) => name,
    };
    let composition = match child_named(children, "composition") {
        None => {
            return Err(ConfigError::Missing);
        },
        Some(node) => match children_of(node) {
            None => {
                return Err(ConfigError::Missing);
            },
            Some(composition) => composition,
        },
    };
    let composing_materials = match read_composition(composition, material_manager) {
        Err(error) => {
            return Err(error);
        },
        Ok(components) => components,
    };
    let material = MaterialProperties::Compound(
        CompoundMaterialProperties { name, composition: composing_materials },
    );
    Ok(Some(material_manager.register_material(material)))
}

/// What a node of a document comes to: a node that is written
/// `define_basic_material` is to define a basic material, one that is written
/// `define_compound_material` a compound, and any other is `Unsupported` and
/// leaves the materials as they are.
pub open spec fn command_outcome(
    node: NodeModel,
    before: Map<u64, MaterialProperties>,
    after: Map<u64, MaterialProperties>,
    outcome: Result<Option<MaterialID>, ConfigError>,
) -> bool {
    if node.shown == "define_basic_material"@ {
        basic_outcome(node, before, after, outcome)
    } else if node.shown == "define_compound_material"@ {
        compound_outcome(node, before, after, outcome)
    } else {
        outcome == Err::<Option<MaterialID>, ConfigError>(ConfigError::Unsupported) && after
            == before
    }
}

/// Whether the result of a document is that of a node: success for success,
/// and an error for the same error.
pub open spec fn same_outcome(
    res: Result<(), ConfigError>,
    outcome: Result<Option<MaterialID>, ConfigError>,
) -> bool {
    match outcome {
        Ok(_) => res is Ok,
        Err(error) => res == Err::<(), ConfigError>(error),
    }
}

/// Whether a node comes from `middle` to `after` with the given outcome,
/// which is the result of the document.
pub open spec fn last_step(
    node: NodeModel,
    middle: Map<u64, MaterialProperties>,
    after: Map<u64, MaterialProperties>,
    outcome: Result<Option<MaterialID>, ConfigError>,
    res: Result<(), ConfigError>,
) -> bool {
    command_outcome(node, middle, after, outcome) && same_outcome(res, outcome)
}

/// What the nodes of a document come to, taken in order from `before`: every
/// node comes to what `command_outcome` says, from the materials that the
/// node before it left, up to the first node that fails. That node's error is
/// the result, and the nodes after it are not looked at.
pub open spec fn loaded(
    nodes: Seq<NodeModel>,
    before: Map<u64, MaterialProperties>,
    after: Map<u64, MaterialProperties>,
    res: Result<(), ConfigError>,
) -> bool
    decreases nodes.len(),
{
    if nodes.len() == 0 {
        res is Ok && after == before
    } else {
        ||| res is Err && loaded(nodes.drop_last(), before, after, res)
        ||| exists|
            middle: Map<u64, MaterialProperties>,
            outcome: Result<Option<MaterialID>, ConfigError>,
        |
            loaded(nodes.drop_last(), before, middle, Ok(())) && #[trigger] last_step(
                nodes.last(),
                middle,
                after,
                outcome,
                res,
            )
    }
}

/// A failure among the first nodes of a document is the failure of the
/// document.
proof fn lemma_failure_stands(
    nodes: Seq<NodeModel>,
    k: int,
    before: Map<u64, MaterialProperties>,
    after: Map<u64, MaterialProperties>,
    res: Result<(), ConfigError>,
)
    requires
        0 <= k <= nodes.len(),
        res is Err,
        loaded(nodes.take(k), before, after, res),
    ensures
        loaded(nodes, before, after, res),
    decreases nodes.len() - k,
{
    if k < nodes.len() {
        assert(nodes.take(k + 1).drop_last() =~= nodes.take(k));
        lemma_failure_stands(nodes, k + 1, before, after, res);
    } else {
        assert(nodes.take(k) =~= nodes);
    }
}

/// Registers the materials that the nodes of a document define, in order,
/// and stops at the first node that defines none. No material that was
/// registered before is touched, whatever the document holds.
pub fn load_materials(document: &KdlDocument, material_manager: &mut MaterialManager) -> (res:
    Result<(), ConfigError>)
    ensures
        loaded(
            document_contents(*document),
            old(material_manager)@,
            final(material_manager)@,
            res,
        ),
        keeps(old(material_manager)@, final(material_manager)@),
{
    let nodes = nodes_of(document);
    let ghost model = document_contents(*document);
    let basic = "define_basic_material".to_owned();
    let compound = "define_compound_material".to_owned();
    let mut i: usize = 0;
    assert(model.take(0) =~= Seq::empty());
    while i < nodes.len()
        invariant
            i <= nodes@.len(),
            model == contents_of(nodes@),
            model == document_contents(*document),
            basic@ == "define_basic_material"@,
            compound@ == "define_compound_material"@,
            loaded(model.take(i as int), old(material_manager)@, material_manager@, Ok(())),
            keeps(old(material_manager)@, material_manager@),
        decreases nodes@.len() - i,
    {
        let node = &nodes[i];
        let node_name = name_of(node);
        let ghost before = material_manager@;
        let outcome = if node_name == basic {
            create_basic_material_from_config(node, material_manager)
        } else if node_name == compound {
            create_compound_material_from_config(node, material_manager)
        } else {
            Err(ConfigError::Unsupported)
        };
        let ghost longer = model.take(i + 1);
        proof {
            assert(keeps(before, material_manager@));
            assert(longer.len() == i + 1);
            assert(longer.drop_last() =~= model.take(i as int));
            assert(longer.last() == model[i as int]);
            assert(node_contents(*node) == model[i as int]);
            assert(loaded(longer.drop_last(), old(material_manager)@, before, Ok(())));
            assert(command_outcome(longer.last(), before, material_manager@, outcome));
        }
        match outcome {
            Ok(_) => {
                assert(last_step(longer.last(), before, material_manager@, outcome, Ok(())));
                assert(loaded(longer, old(material_manager)@, material_manager@, Ok(())));
            },
            Err(error) => {
                proof {
                    let res = Err::<(), ConfigError>(error);
                    assert(last_step(longer.last(), before, material_manager@, outcome, res));
                    assert(loaded(longer, old(material_manager)@, material_manager@, res));
                    lemma_failure_stands(
                        model,
                        i + 1,
                        old(material_manager)@,
                        material_manager@,
                        res,
                    );
                }
                return Err(error);
            },
        }
        i = i + 1;
    }
    assert(model.take(i as int) =~= model);
    Ok(())
}

} // verus!
