//! Water sensor: whether water is detected.
use vstd::prelude::*;

use crate::codec::{TypedValue, ValueView, encode_view};
use crate::dispatch::{NodeRef, NodeRefView, OutboundMessage, outbound_spec, publish_encoded};
use crate::format::{
    DataType, FormatView, NodeSchema, PropertyDescriptor, PropertyView, SchemaView, ValueFormat,
    opt_text, property_spec,
};
use crate::SMARTHOME_TYPE_WATER_SENSOR;
use crate::validation::schema_valid;

verus! {

pub const WATER_SENSOR_NODE_DEFAULT_ID: &'static str = "water";

pub const WATER_SENSOR_NODE_DEFAULT_NAME: &'static str = "Open/Close water";

pub const WATER_SENSOR_NODE_DETECTED_PROP_ID: &'static str = "detected";

/// A water sensor's runtime state.
#[derive(Debug)]
pub struct WaterSensorNode {
    pub publisher: WaterSensorNodePublisher,
    pub detected: bool,
}

pub open spec fn detected_format() -> FormatView {
    FormatView::BooleanWords { false_word: "no water"@, true_word: "water detected"@ }
}

fn detected_words() -> (r: ValueFormat)
    ensures
        r@ == detected_format(),
{
    ValueFormat::BooleanWords {
        false_word: "no water".to_owned(),
        true_word: "water detected".to_owned(),
    }
}
pub open spec fn detected_property() -> PropertyView {
    property_spec(WATER_SENSOR_NODE_DETECTED_PROP_ID@, "Water detection"@, DataType::Boolean)
        .with_format(detected_format())
        .with_settable(false)
        .with_retained(true)
}

/// The properties a water sensor declares, in order.
pub open spec fn water_sensor_properties() -> Seq<PropertyView> {
    let a = Seq::<PropertyView>::empty();
    let decl0 = a.push(detected_property());
    decl0
}

/// The schema a water sensor declares.
pub open spec fn water_sensor_schema() -> SchemaView {
    SchemaView {
        type_tag: SMARTHOME_TYPE_WATER_SENSOR@,
        name: Some(WATER_SENSOR_NODE_DEFAULT_NAME@),
        properties: water_sensor_properties(),
    }
}

pub struct WaterSensorNodeBuilder {
    node_builder: NodeSchema,
}

impl View for WaterSensorNodeBuilder {
    type V = SchemaView;

    closed spec fn view(&self) -> SchemaView {
        self.node_builder@
    }
}

impl Default for WaterSensorNodeBuilder {
    fn default() -> (r: WaterSensorNodeBuilder)
        ensures
            r@ == water_sensor_schema(),
    {
        WaterSensorNodeBuilder::new()
    }
}

impl WaterSensorNodeBuilder {
    pub fn new() -> (r: WaterSensorNodeBuilder)
        ensures
            r@ == water_sensor_schema(),
    {
        let mut schema = NodeSchema::new(
            SMARTHOME_TYPE_WATER_SENSOR,
            WATER_SENSOR_NODE_DEFAULT_NAME,
        );
        schema.add_property(
            PropertyDescriptor::new(
                WATER_SENSOR_NODE_DETECTED_PROP_ID,
                "Water detection",
                DataType::Boolean,
            )
                .format(detected_words())
                .settable(false)
                .retained(true),
        );
        assert(schema@.properties =~= water_sensor_properties());
        WaterSensorNodeBuilder { node_builder: schema }
    }

    /// Replaces the node's display name.
    pub fn name(self, name: Option<String>) -> (r: WaterSensorNodeBuilder)
        ensures
            r@ == self@.named(opt_text(name)),
    {
        let mut schema = self.node_builder;
        schema.set_name(name);
        WaterSensorNodeBuilder { node_builder: schema }
    }

    pub fn build(self) -> (r: NodeSchema)
        ensures
            r@ == self@,
    {
        self.node_builder
    }

    /// The schema, and a publisher for the node at the given address.
    pub fn build_with_publisher(self, node: NodeRef) -> (r: (NodeSchema, WaterSensorNodePublisher))
        ensures
            r.0@ == self@,
            r.1.node_ref() == node@,
    {
        (self.node_builder, WaterSensorNodePublisher::new(node))
    }
}

/// A water sensor instance: publishes its values.
#[derive(Debug)]
pub struct WaterSensorNodePublisher {
    node: NodeRef,
}

impl WaterSensorNodePublisher {
    pub closed spec fn node_ref(&self) -> NodeRefView {
        self.node@
    }

    pub fn new(node: NodeRef) -> (r: WaterSensorNodePublisher)
        ensures
            r.node_ref() == node@,
    {
        WaterSensorNodePublisher { node }
    }

    /// Publishes the current detected.
    pub fn detected(&self, value: bool) -> (r: OutboundMessage)
        ensures
            r@ == outbound_spec(
                self.node_ref(),
                WATER_SENSOR_NODE_DETECTED_PROP_ID@,
                encode_view(ValueView::Bool(value), detected_format()),
                true,
                false,
            ),
    {
        publish_encoded(
            &self.node,
            WATER_SENSOR_NODE_DETECTED_PROP_ID,
            &TypedValue::Bool(value),
            &detected_words(),
            true,
            false,
        )
    }
}

/// Every water sensor schema passes the schema checks: valid, distinct ids
/// and formats that suit their datatypes and admit a value.
pub proof fn lemma_water_sensor_schema_valid()
    ensures
        schema_valid(water_sensor_schema()),
{
    reveal_strlit("detected");
    reveal_strlit("no water");
    reveal_strlit("water detected");
    reveal_with_fuel(crate::validation::id_chars, 9);
    reveal_with_fuel(crate::validation::first_problem, 2);
    let props = water_sensor_properties();
    let c0: int = 1;
    assert(props[0int] == detected_property());
    assert(props.len() == 0int + c0);
}

} // verus!
