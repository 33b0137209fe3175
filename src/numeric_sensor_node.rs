//! Numeric sensor: one read-only value whose datatype, unit and bounds
//! follow the kind of quantity measured.
use vstd::prelude::*;

use crate::dispatch::{NodeRef, NodeRefView, OutboundMessage, outbound, outbound_spec};
use crate::format::{
    DataType, FloatRange, FormatView, NodeSchema, PropertyDescriptor, PropertyView, SchemaView,
    UNIT_AMPERE, UNIT_DEGREE_CELSIUS, UNIT_HERTZ, UNIT_KILOPASCAL, UNIT_KILOWATTHOUR, UNIT_LITER,
    UNIT_LUX, UNIT_METER, UNIT_PERCENT, UNIT_VOLT, UNIT_WATT, ValueFormat, opt_text, property_spec,
};
use crate::numeric::{Decimal, render_decimal};
use crate::SMARTHOME_TYPE_NUMERIC;
use crate::validation::schema_valid;

verus! {

pub const NUMERIC_NODE_DEFAULT_ID: &'static str = "numeric";

pub const NUMERIC_NODE_DEFAULT_NAME: &'static str = "Numeric Sensor";

pub const NUMERIC_NODE_VALUE_PROP_ID: &'static str = "value";

/// The kind of quantity a numeric sensor measures.
#[derive(Debug, PartialEq, Eq, Clone, Copy, Structural)]
pub enum NumericSensorType {
    Generic,
    Temperature,
    Humidity,
    Pressure,
    Volume,
    Volt,
    Current,
    Power,
    Energy,
    Frequency,
    Battery,
    Distance,
    Speed,
    Light,
    GasCO,
    GasCO2,
    GasCH4,
    GasVoc,
}

impl NumericSensorType {
    pub open spec fn token(self) -> Seq<char> {
        match self {
            NumericSensorType::Generic => "generic"@,
            NumericSensorType::Temperature => "temperature"@,
            NumericSensorType::Humidity => "humidity"@,
            NumericSensorType::Pressure => "pressure"@,
            NumericSensorType::Volume => "volume"@,
            NumericSensorType::Volt => "volt"@,
            NumericSensorType::Current => "current"@,
            NumericSensorType::Power => "power"@,
            NumericSensorType::Energy => "energy"@,
            NumericSensorType::Frequency => "frequency"@,
            NumericSensorType::Battery => "battery"@,
            NumericSensorType::Distance => "distance"@,
            NumericSensorType::Speed => "speed"@,
            NumericSensorType::Light => "light"@,
            NumericSensorType::GasCO => "gas-co"@,
            NumericSensorType::GasCO2 => "gas-co2"@,
            NumericSensorType::GasCH4 => "gas-ch4"@,
            NumericSensorType::GasVoc => "gas-voc"@,
        }
    }

    /// The node type tag of a numeric sensor of this kind.
    pub open spec fn type_tag(self) -> Seq<char> {
        SMARTHOME_TYPE_NUMERIC@ + "-"@ + self.token()
    }

    pub open spec fn node_name(self) -> Seq<char> {
        match self {
            NumericSensorType::Generic => "numeric-sensor"@,
            _ => self.token(),
        }
    }

    /// The unit of the measured value, if any.
    pub open spec fn unit(self) -> Option<Seq<char>> {
        match self {
            NumericSensorType::Generic => None,
            NumericSensorType::Temperature => Some(UNIT_DEGREE_CELSIUS@),
            NumericSensorType::Humidity => Some(UNIT_PERCENT@),
            NumericSensorType::Pressure => Some(UNIT_KILOPASCAL@),
            NumericSensorType::Volume => Some(UNIT_LITER@),
            NumericSensorType::Volt => Some(UNIT_VOLT@),
            NumericSensorType::Current => Some(UNIT_AMPERE@),
            NumericSensorType::Power => Some(UNIT_WATT@),
            NumericSensorType::Energy => Some(UNIT_KILOWATTHOUR@),
            NumericSensorType::Frequency => Some(UNIT_HERTZ@),
            NumericSensorType::Battery => Some(UNIT_PERCENT@),
            NumericSensorType::Distance => Some(UNIT_METER@),
            NumericSensorType::Speed => Some("m/s"@),
            NumericSensorType::Light => Some(UNIT_LUX@),
            NumericSensorType::GasCO => Some("ppm"@),
            NumericSensorType::GasCO2 => Some("ppm"@),
            NumericSensorType::GasCH4 => Some("ppm"@),
            NumericSensorType::GasVoc => Some("ppm"@),
        }
    }

    /// A generic sensor reports integers; the others report fractional
    /// numbers.
    pub open spec fn datatype(self) -> DataType {
        match self {
            NumericSensorType::Generic => DataType::Integer,
            _ => DataType::Float,
        }
    }

    /// Bounds of the measured value: temperatures from absolute zero,
    /// humidity and battery level from 0 to 100.
    pub open spec fn format(self) -> FormatView {
        match self {
            NumericSensorType::Temperature => FormatView::FloatRange(absolute_zero_up()),
            NumericSensorType::Humidity => FormatView::FloatRange(percent_range()),
            NumericSensorType::Battery => FormatView::FloatRange(percent_range()),
            _ => FormatView::Unconstrained,
        }
    }

    pub fn as_str(&self) -> (r: &'static str)
        ensures
            r@ == self.token(),
    {
        match self {
            NumericSensorType::Generic => "generic",
            NumericSensorType::Temperature => "temperature",
            NumericSensorType::Humidity => "humidity",
            NumericSensorType::Pressure => "pressure",
            NumericSensorType::Volume => "volume",
            NumericSensorType::Volt => "volt",
            NumericSensorType::Current => "current",
            NumericSensorType::Power => "power",
            NumericSensorType::Energy => "energy",
            NumericSensorType::Frequency => "frequency",
            NumericSensorType::Battery => "battery",
            NumericSensorType::Distance => "distance",
            NumericSensorType::Speed => "speed",
            NumericSensorType::Light => "light",
            NumericSensorType::GasCO => "gas-co",
            NumericSensorType::GasCO2 => "gas-co2",
            NumericSensorType::GasCH4 => "gas-ch4",
            NumericSensorType::GasVoc => "gas-voc",
        }
    }

    /// The node type tag of a numeric sensor of this kind.
    pub fn make_smarthome_type(&self) -> (r: String)
        ensures
            r@ == self.type_tag(),
    {
        let mut r = SMARTHOME_TYPE_NUMERIC.to_owned();
        r.append("-");
        r.append(self.as_str());
        r
    }

    /// The default display name of a numeric sensor of this kind.
    pub fn default_node_name(&self) -> (r: &'static str)
        ensures
            r@ == self.node_name(),
    {
        match self {
            NumericSensorType::Generic => "numeric-sensor",
            _ => self.as_str(),
        }
    }

    fn unit_text(&self) -> (r: Option<&'static str>)
        ensures
            match r {
                Some(u) => self.unit() == Some(u@),
                None => self.unit() is None,
            },
    {
        match self {
            NumericSensorType::Generic => None,
            NumericSensorType::Temperature => Some(UNIT_DEGREE_CELSIUS),
            NumericSensorType::Humidity => Some(UNIT_PERCENT),
            NumericSensorType::Pressure => Some(UNIT_KILOPASCAL),
            NumericSensorType::Volume => Some(UNIT_LITER),
            NumericSensorType::Volt => Some(UNIT_VOLT),
            NumericSensorType::Current => Some(UNIT_AMPERE),
            NumericSensorType::Power => Some(UNIT_WATT),
            NumericSensorType::Energy => Some(UNIT_KILOWATTHOUR),
            NumericSensorType::Frequency => Some(UNIT_HERTZ),
            NumericSensorType::Battery => Some(UNIT_PERCENT),
            NumericSensorType::Distance => Some(UNIT_METER),
            NumericSensorType::Speed => Some("m/s"),
            NumericSensorType::Light => Some(UNIT_LUX),
            NumericSensorType::GasCO => Some("ppm"),
            NumericSensorType::GasCO2 => Some("ppm"),
            NumericSensorType::GasCH4 => Some("ppm"),
            NumericSensorType::GasVoc => Some("ppm"),
        }
    }
}

pub open spec fn absolute_zero_up() -> FloatRange {
    FloatRange { min: Some(Decimal { mantissa: -27315i64, scale: 2 }), max: None, step: None }
}

pub open spec fn percent_range() -> FloatRange {
    FloatRange {
        min: Some(Decimal { mantissa: 0, scale: 0 }),
        max: Some(Decimal { mantissa: 100, scale: 0 }),
        step: None,
    }
}

fn value_format(sensor_type: NumericSensorType) -> (r: ValueFormat)
    ensures
        r@ == sensor_type.format(),
{
    match sensor_type {
        NumericSensorType::Temperature => ValueFormat::FloatRange(
            FloatRange { min: Some(Decimal { mantissa: -27315, scale: 2 }), max: None, step: None },
        ),
        NumericSensorType::Humidity | NumericSensorType::Battery => ValueFormat::FloatRange(
            FloatRange {
                min: Some(Decimal { mantissa: 0, scale: 0 }),
                max: Some(Decimal { mantissa: 100, scale: 0 }),
                step: None,
            },
        ),
        _ => ValueFormat::Unconstrained,
    }
}

/// The value property of a numeric sensor of the given kind.
pub open spec fn value_property(sensor_type: NumericSensorType) -> PropertyView {
    let p = property_spec(
        NUMERIC_NODE_VALUE_PROP_ID@,
        "Sensor value ("@ + sensor_type.token() + ")"@,
        sensor_type.datatype(),
    ).with_format(sensor_type.format()).with_settable(false).with_retained(true);
    match sensor_type.unit() {
        Some(u) => p.with_unit(u),
        None => p,
    }
}

/// The schema a numeric sensor of the given kind declares.
pub open spec fn numeric_sensor_schema(sensor_type: NumericSensorType) -> SchemaView {
    SchemaView {
        type_tag: sensor_type.type_tag(),
        name: Some(sensor_type.node_name()),
        properties: seq![value_property(sensor_type)],
    }
}

pub struct NumericSensorNodeBuilder {
    node_builder: NodeSchema,
}

impl View for NumericSensorNodeBuilder {
    type V = SchemaView;

    closed spec fn view(&self) -> SchemaView {
        self.node_builder@
    }
}

impl Default for NumericSensorNodeBuilder {
    fn default() -> (r: NumericSensorNodeBuilder)
        ensures
            r@ == numeric_sensor_schema(NumericSensorType::Generic),
    {
        NumericSensorNodeBuilder::for_type(NumericSensorType::Generic)
    }
}

impl NumericSensorNodeBuilder {
    pub fn new() -> (r: NumericSensorNodeBuilder)
        ensures
            r@ == numeric_sensor_schema(NumericSensorType::Generic),
    {
        NumericSensorNodeBuilder::for_type(NumericSensorType::Generic)
    }

    pub fn for_type(sensor_type: NumericSensorType) -> (r: NumericSensorNodeBuilder)
        ensures
            r@ == numeric_sensor_schema(sensor_type),
    {
        let tag = sensor_type.make_smarthome_type();
        let mut schema = NodeSchema::new(tag.as_str(), sensor_type.default_node_name());
        let mut prop_name = "Sensor value (".to_owned();
        prop_name.append(sensor_type.as_str());
        prop_name.append(")");
        let datatype = match sensor_type {
            NumericSensorType::Generic => DataType::Integer,
            _ => DataType::Float,
        };
        let mut prop = PropertyDescriptor::new(
            NUMERIC_NODE_VALUE_PROP_ID,
            prop_name.as_str(),
            datatype,
        ).format(value_format(sensor_type)).settable(false).retained(true);
        match sensor_type.unit_text() {
            Some(u) => {
                prop = prop.unit(u);
            },
            None => {},
        }
        schema.add_property(prop);
        assert(schema@.properties =~= seq![value_property(sensor_type)]);
        NumericSensorNodeBuilder { node_builder: schema }
    }

    /// Replaces the node's display name.
    pub fn name(self, name: Option<String>) -> (r: NumericSensorNodeBuilder)
        ensures
            r@ == self@.named(opt_text(name)),
    {
        let mut schema = self.node_builder;
        schema.set_name(name);
        NumericSensorNodeBuilder { node_builder: schema }
    }

    pub fn build(self) -> (r: NodeSchema)
        ensures
            r@ == self@,
    {
        self.node_builder
    }

    /// The schema, and a publisher for the node at the given address.
    pub fn build_with_publisher(self, node: NodeRef) -> (
        r: (NodeSchema, NumericSensorNodePublisher)
    )
        ensures
            r.0@ == self@,
            r.1.node_ref() == node@,
    {
        (self.node_builder, NumericSensorNodePublisher::new(node))
    }
}

/// A numeric sensor's runtime state.
#[derive(Debug)]
pub struct NumericSensorNode {
    pub publisher: NumericSensorNodePublisher,
    pub value: Decimal,
}

/// A numeric sensor instance: publishes its value.
#[derive(Debug)]
pub struct NumericSensorNodePublisher {
    node: NodeRef,
}

impl NumericSensorNodePublisher {
    pub closed spec fn node_ref(&self) -> NodeRefView {
        self.node@
    }

    pub fn new(node: NodeRef) -> (r: NumericSensorNodePublisher)
        ensures
            r.node_ref() == node@,
    {
        NumericSensorNodePublisher { node }
    }

    /// Publishes the measured value.
    pub fn value(&self, value: Decimal) -> (r: OutboundMessage)
        ensures
            r@ == outbound_spec(
                self.node_ref(),
                NUMERIC_NODE_VALUE_PROP_ID@,
                value.text(),
                true,
                false,
            ),
    {
        outbound(&self.node, NUMERIC_NODE_VALUE_PROP_ID, render_decimal(value), true, false)
    }
}

/// Every numeric sensor schema passes the schema checks: a valid id and a
/// format that suits its datatype.
pub proof fn lemma_numeric_sensor_schema_valid(sensor_type: NumericSensorType)
    ensures
        schema_valid(numeric_sensor_schema(sensor_type)),
{
    reveal_strlit("value");
    reveal_with_fuel(crate::validation::id_chars, 6);
    reveal_with_fuel(crate::validation::first_problem, 2);
}

} // verus!
