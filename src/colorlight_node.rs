//! Color light: a color in the configured encodings and a color
//! temperature within configured bounds.
use vstd::prelude::*;

use crate::codec::{ColorValue, TypedValue, ValueView, color_text, render_color, str_equal};
use crate::dispatch::{
    NodeRef, NodeRefView, OutboundMessage, PropertyRef, PropertySet, dispatch, dispatch_view,
    outbound, outbound_spec,
};
use crate::format::{
    ColorFormat, DataType, FormatView, IntegerRange, NodeSchema, PropertyDescriptor, PropertyView,
    SchemaView, ValueFormat, opt_text, property_spec,
};
use crate::numeric::{integer_text, render_integer};
use crate::SMARTHOME_TYPE_COLORLIGHT;
use crate::validation::schema_valid;

verus! {

pub const COLORLIGHT_NODE_DEFAULT_ID: &'static str = "colorlight";

pub const COLORLIGHT_NODE_DEFAULT_NAME: &'static str = "Colorlight control";

pub const COLORLIGHT_NODE_COLOR_PROP_ID: &'static str = "color";

pub const COLORLIGHT_NODE_COLOR_TEMP_PROP_ID: &'static str = "color-temperature";

/// A color light node's runtime state.
#[derive(Debug)]
pub struct ColorlightNode {
    pub publisher: ColorlightNodePublisher,
    pub color: ColorValue,
    pub color_target: ColorValue,
    pub color_temperature: i64,
    pub color_temperature_target: i64,
}

#[derive(Debug, PartialEq, Eq, Clone, Copy, Structural)]
pub enum ColorlightNodeSetEvents {
    Color(ColorValue),
    ColorTemperature(i64),
}

#[derive(Debug, PartialEq, Clone)]
pub struct ColorlightNodeConfig {
    pub settable: bool,
    pub color_formats: Vec<ColorFormat>,
    pub ctmin: i64,
    pub ctmax: i64,
}

impl Default for ColorlightNodeConfig {
    fn default() -> (r: ColorlightNodeConfig)
        ensures
            r.settable,
            r.color_formats@ == seq![ColorFormat::Rgb],
            r.ctmin == 153,
            r.ctmax == 555,
    {
        let r = ColorlightNodeConfig {
            settable: true,
            color_formats: vec![ColorFormat::Rgb],
            ctmin: 153,
            ctmax: 555,
        };
        assert(r.color_formats@ =~= seq![ColorFormat::Rgb]);
        r
    }
}

pub open spec fn colorlight_properties(config: ColorlightNodeConfig) -> Seq<PropertyView> {
    seq![
        property_spec(COLORLIGHT_NODE_COLOR_PROP_ID@, "Color"@, DataType::Color).with_format(
            FormatView::ColorEncodings(config.color_formats@),
        ).with_settable(config.settable).with_retained(true),
        property_spec(
            COLORLIGHT_NODE_COLOR_TEMP_PROP_ID@,
            "Color temperature"@,
            DataType::Integer,
        ).with_format(
            FormatView::IntegerRange(
                IntegerRange { min: Some(config.ctmin), max: Some(config.ctmax), step: None },
            ),
        ).with_settable(config.settable).with_retained(true),
    ]
}

/// The schema a color light configuration declares (its display name is the
/// node's default id).
pub open spec fn colorlight_schema(config: ColorlightNodeConfig) -> SchemaView {
    SchemaView {
        type_tag: SMARTHOME_TYPE_COLORLIGHT@,
        name: Some(COLORLIGHT_NODE_DEFAULT_ID@),
        properties: colorlight_properties(config),
    }
}

/// The event a dispatched command is, if it is one of the color light's.
pub open spec fn colorlight_event(d: Option<(Seq<char>, ValueView)>) -> Option<
    ColorlightNodeSetEvents,
> {
    match d {
        Some(p) => if p.0 == COLORLIGHT_NODE_COLOR_PROP_ID@ {
            match p.1 {
                ValueView::Color(c) => Some(ColorlightNodeSetEvents::Color(c)),
                _ => None,
            }
        } else if p.0 == COLORLIGHT_NODE_COLOR_TEMP_PROP_ID@ {
            match p.1 {
                ValueView::Integer(v) => Some(ColorlightNodeSetEvents::ColorTemperature(v)),
                _ => None,
            }
        } else {
            None
        },
        None => None,
    }
}

fn copy_formats(v: &Vec<ColorFormat>) -> (r: Vec<ColorFormat>)
    ensures
        r@ == v@,
{
    let mut r: Vec<ColorFormat> = Vec::new();
    let mut i: usize = 0;
    while i < v.len()
        invariant
            i <= v@.len(),
            r@ == v@.subrange(0, i as int),
        decreases v@.len() - i,
    {
        r.push(v[i]);
        proof {
            assert(v@.subrange(0, i + 1) =~= v@.subrange(0, i as int).push(v@[i as int]));
        }
        i = i + 1;
    }
    assert(v@.subrange(0, v@.len() as int) =~= v@);
    r
}

pub struct ColorlightNodeBuilder {
    node_builder: NodeSchema,
}

impl View for ColorlightNodeBuilder {
    type V = SchemaView;

    closed spec fn view(&self) -> SchemaView {
        self.node_builder@
    }
}

impl ColorlightNodeBuilder {
    /// The color light schema; at least one color encoding must be
    /// configured, and the color temperature bounds must admit a value.
    pub fn new(config: &ColorlightNodeConfig) -> (r: ColorlightNodeBuilder)
        requires
            config.color_formats@.len() > 0,
            config.ctmin <= config.ctmax,
        ensures
            r@ == colorlight_schema(*config),
    {
        let mut schema = NodeSchema::new(SMARTHOME_TYPE_COLORLIGHT, COLORLIGHT_NODE_DEFAULT_ID);
        schema.add_property(
            PropertyDescriptor::new(COLORLIGHT_NODE_COLOR_PROP_ID, "Color", DataType::Color).format(
                ValueFormat::ColorEncodings(copy_formats(&config.color_formats)),
            ).settable(config.settable).retained(true),
        );
        schema.add_property(
            PropertyDescriptor::new(
                COLORLIGHT_NODE_COLOR_TEMP_PROP_ID,
                "Color temperature",
                DataType::Integer,
            ).format(
                ValueFormat::IntegerRange(
                    IntegerRange { min: Some(config.ctmin), max: Some(config.ctmax), step: None },
                ),
            ).settable(config.settable).retained(true),
        );
        assert(schema@.properties =~= colorlight_properties(*config));
        ColorlightNodeBuilder { node_builder: schema }
    }

    /// Replaces the node's display name.
    pub fn name(self, name: Option<String>) -> (r: ColorlightNodeBuilder)
        ensures
            r@ == self@.named(opt_text(name)),
    {
        let mut schema = self.node_builder;
        schema.set_name(name);
        ColorlightNodeBuilder { node_builder: schema }
    }

    pub fn build(self) -> (r: NodeSchema)
        ensures
            r@ == self@,
    {
        self.node_builder
    }

    /// The schema, and a publisher for the node at the given address.
    pub fn build_with_publisher(self, node: NodeRef) -> (r: (NodeSchema, ColorlightNodePublisher))
        ensures
            r.0@ == self@,
            r.1.node_ref() == node@,
            r.1.schema() == self@,
    {
        let publisher = ColorlightNodePublisher::new(node, self.node_builder.duplicate());
        (self.node_builder, publisher)
    }
}

/// A color light node instance: publishes its values and decodes commands
/// sent to it.
#[derive(Debug)]
pub struct ColorlightNodePublisher {
    node: NodeRef,
    schema: NodeSchema,
}

impl ColorlightNodePublisher {
    pub closed spec fn node_ref(&self) -> NodeRefView {
        self.node@
    }

    pub closed spec fn schema(&self) -> SchemaView {
        self.schema@
    }

    pub fn new(node: NodeRef, schema: NodeSchema) -> (r: ColorlightNodePublisher)
        ensures
            r.node_ref() == node@,
            r.schema() == schema@,
    {
        ColorlightNodePublisher { node, schema }
    }

    /// Publishes the current color.
    pub fn color(&self, value: ColorValue) -> (r: OutboundMessage)
        ensures
            r@ == outbound_spec(
                self.node_ref(),
                COLORLIGHT_NODE_COLOR_PROP_ID@,
                color_text(value),
                true,
                false,
            ),
    {
        outbound(&self.node, COLORLIGHT_NODE_COLOR_PROP_ID, render_color(&value), true, false)
    }

    /// Publishes the requested color.
    pub fn color_target(&self, value: ColorValue) -> (r: OutboundMessage)
        ensures
            r@ == outbound_spec(
                self.node_ref(),
                COLORLIGHT_NODE_COLOR_PROP_ID@,
                color_text(value),
                true,
                true,
            ),
    {
        outbound(&self.node, COLORLIGHT_NODE_COLOR_PROP_ID, render_color(&value), true, true)
    }

    /// Publishes the current color temperature.
    pub fn color_temperature(&self, value: i64) -> (r: OutboundMessage)
        ensures
            r@ == outbound_spec(
                self.node_ref(),
                COLORLIGHT_NODE_COLOR_TEMP_PROP_ID@,
                integer_text(value as int),
                true,
                false,
            ),
    {
        outbound(&self.node, COLORLIGHT_NODE_COLOR_TEMP_PROP_ID, render_integer(value), true, false)
    }

    /// Publishes the requested color temperature.
    pub fn color_temperature_target(&self, value: i64) -> (r: OutboundMessage)
        ensures
            r@ == outbound_spec(
                self.node_ref(),
                COLORLIGHT_NODE_COLOR_TEMP_PROP_ID@,
                integer_text(value as int),
                true,
                true,
            ),
    {
        outbound(&self.node, COLORLIGHT_NODE_COLOR_TEMP_PROP_ID, render_integer(value), true, true)
    }

    /// The color light event a command is, if it addresses this node, names
    /// one of its properties, and its payload decodes.
    pub fn match_parse(&self, property: &PropertyRef, set_value: &str) -> (r: Option<
        ColorlightNodeSetEvents,
    >)
        ensures
            r == colorlight_event(
                dispatch_view(self.node_ref(), self.schema(), property@, set_value@),
            ),
    {
        match dispatch(&self.node, &self.schema, property, set_value) {
            None => None,
            Some(v) => {
                if str_equal(property.prop_id.as_str(), COLORLIGHT_NODE_COLOR_PROP_ID) {
                    match v {
                        TypedValue::Color(c) => Some(ColorlightNodeSetEvents::Color(c)),
                        _ => None,
                    }
                } else if str_equal(property.prop_id.as_str(), COLORLIGHT_NODE_COLOR_TEMP_PROP_ID) {
                    match v {
                        TypedValue::Integer(t) => Some(
                            ColorlightNodeSetEvents::ColorTemperature(t)
                        ),
                        _ => None,
                    }
                } else {
                    None
                }
            },
        }
    }

    /// As [`ColorlightNodePublisher::match_parse`], for an inbound set
    /// command.
    pub fn match_parse_event(&self, event: &PropertySet) -> (r: Option<ColorlightNodeSetEvents>)
        ensures
            r == colorlight_event(
                dispatch_view(self.node_ref(), self.schema(), event.property@, event.set_value@),
            ),
    {
        self.match_parse(&event.property, event.set_value.as_str())
    }
}

/// A color light schema passes the schema checks (valid, distinct ids and
/// formats that suit their datatypes and admit a value) where at least one
/// color encoding is configured and the color temperature bounds admit a
/// value.
pub proof fn lemma_colorlight_schema_valid(config: ColorlightNodeConfig)
    requires
        config.color_formats@.len() > 0,
        config.ctmin <= config.ctmax,
    ensures
        schema_valid(colorlight_schema(config)),
{
    reveal_strlit("color");
    reveal_strlit("color-temperature");
    reveal_with_fuel(crate::validation::id_chars, 18);
    reveal_with_fuel(crate::validation::first_problem, 3);
    let props = colorlight_schema(config).properties;
    assert(props[1].id.len() != props[0].id.len());
}

} // verus!
