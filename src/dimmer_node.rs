//! Dimmer: a brightness level in percent (0 to 100) and `brighter` /
//! `darker` actions.
use vstd::prelude::*;

use crate::codec::{DecodeError, TypedValue, ValueView, str_equal};
use crate::dispatch::{
    NodeRef, NodeRefView, OutboundMessage, PropertyRef, PropertySet, dispatch, dispatch_view,
    outbound, outbound_spec,
};
use crate::format::{
    DataType, FormatView, IntegerRange, NodeSchema, PropertyDescriptor, PropertyView, SchemaView,
    UNIT_PERCENT, ValueFormat, opt_text, property_spec, texts,
};
use crate::numeric::{integer_text, render_integer};
use crate::SMARTHOME_TYPE_DIMMER;
use crate::validation::schema_valid;

verus! {

pub const DIMMER_NODE_DEFAULT_ID: &'static str = "dimmer";

pub const DIMMER_NODE_DEFAULT_NAME: &'static str = "Brightness control";

pub const DIMMER_NODE_BRIGHTNESS_PROP_ID: &'static str = "brightness";

pub const DIMMER_NODE_ACTION_PROP_ID: &'static str = "action";

/// A dimmer node's runtime state.
#[derive(Debug)]
pub struct DimmerNode {
    pub publisher: DimmerNodePublisher,
    pub state: i64,
    pub state_target: i64,
}

#[derive(Debug, PartialEq, Eq, Clone, Copy, Structural)]
pub enum DimmerNodeActions {
    Brighter,
    Darker,
}

impl DimmerNodeActions {
    pub open spec fn token(self) -> Seq<char> {
        match self {
            DimmerNodeActions::Brighter => "brighter"@,
            DimmerNodeActions::Darker => "darker"@,
        }
    }

    pub open spec fn of_token(s: Seq<char>) -> Option<DimmerNodeActions> {
        if s == "brighter"@ {
            Some(DimmerNodeActions::Brighter)
        } else if s == "darker"@ {
            Some(DimmerNodeActions::Darker)
        } else {
            None
        }
    }

    pub fn as_str(&self) -> (r: &'static str)
        ensures
            r@ == self.token(),
    {
        match self {
            DimmerNodeActions::Brighter => "brighter",
            DimmerNodeActions::Darker => "darker",
        }
    }

    /// The action a token names.
    pub fn from_str(s: &str) -> (r: Result<DimmerNodeActions, DecodeError>)
        ensures
            r == match DimmerNodeActions::of_token(s@) {
                Some(a) => Ok::<DimmerNodeActions, DecodeError>(a),
                None => Err(DecodeError::InvalidPayload),
            },
    {
        if str_equal(s, "brighter") {
            Ok(DimmerNodeActions::Brighter)
        } else if str_equal(s, "darker") {
            Ok(DimmerNodeActions::Darker)
        } else {
            Err(DecodeError::InvalidPayload)
        }
    }
}

#[derive(Debug, PartialEq, Eq, Clone, Copy, Structural)]
pub enum DimmerNodeSetEvents {
    Brightness(i64),
    Action(DimmerNodeActions),
}

#[derive(Debug, PartialEq, Eq, Clone, Copy, Structural)]
pub struct DimmerNodeConfig {
    pub settable: bool,
}

impl Default for DimmerNodeConfig {
    fn default() -> (r: DimmerNodeConfig)
        ensures
            r.settable,
    {
        DimmerNodeConfig { settable: true }
    }
}

pub open spec fn brightness_range() -> IntegerRange {
    IntegerRange { min: Some(0), max: Some(100), step: None }
}

pub open spec fn dimmer_properties(config: DimmerNodeConfig) -> Seq<PropertyView> {
    seq![
        property_spec(DIMMER_NODE_BRIGHTNESS_PROP_ID@, "Brightness Level"@, DataType::Integer)
            .with_format(FormatView::IntegerRange(brightness_range()))
            .with_unit(UNIT_PERCENT@)
            .with_settable(config.settable)
            .with_retained(true),
        property_spec(DIMMER_NODE_ACTION_PROP_ID@, "Change Brightness"@, DataType::Enum)
            .with_format(
                FormatView::EnumSet(
                    seq![DimmerNodeActions::Brighter.token(), DimmerNodeActions::Darker.token()],
                ),
            )
            .with_settable(config.settable)
            .with_retained(false),
    ]
}

/// The schema a dimmer configuration declares.
pub open spec fn dimmer_schema(config: DimmerNodeConfig) -> SchemaView {
    SchemaView {
        type_tag: SMARTHOME_TYPE_DIMMER@,
        name: Some(DIMMER_NODE_DEFAULT_NAME@),
        properties: dimmer_properties(config),
    }
}

/// The event a dispatched command is, if it is one of the dimmer's.
pub open spec fn dimmer_event(d: Option<(Seq<char>, ValueView)>) -> Option<DimmerNodeSetEvents> {
    match d {
        Some(p) => if p.0 == DIMMER_NODE_BRIGHTNESS_PROP_ID@ {
            match p.1 {
                ValueView::Integer(v) => Some(DimmerNodeSetEvents::Brightness(v)),
                _ => None,
            }
        } else if p.0 == DIMMER_NODE_ACTION_PROP_ID@ {
            match p.1 {
                ValueView::Enum(t) => match DimmerNodeActions::of_token(t) {
                    Some(a) => Some(DimmerNodeSetEvents::Action(a)),
                    None => None,
                },
                _ => None,
            }
        } else {
            None
        },
        None => None,
    }
}

pub struct DimmerNodeBuilder {
    node_builder: NodeSchema,
}

impl View for DimmerNodeBuilder {
    type V = SchemaView;

    closed spec fn view(&self) -> SchemaView {
        self.node_builder@
    }
}

impl DimmerNodeBuilder {
    pub fn new(config: &DimmerNodeConfig) -> (r: DimmerNodeBuilder)
        ensures
            r@ == dimmer_schema(*config),
    {
        let mut schema = NodeSchema::new(SMARTHOME_TYPE_DIMMER, DIMMER_NODE_DEFAULT_NAME);
        schema.add_property(
            PropertyDescriptor::new(
                DIMMER_NODE_BRIGHTNESS_PROP_ID,
                "Brightness Level",
                DataType::Integer,
            ).format(
                ValueFormat::IntegerRange(
                    IntegerRange { min: Some(0), max: Some(100), step: None }
                ),
            ).unit(UNIT_PERCENT).settable(config.settable).retained(true),
        );
        let tokens = vec![
            DimmerNodeActions::Brighter.as_str().to_owned(),
            DimmerNodeActions::Darker.as_str().to_owned(),
        ];
        assert(texts(tokens@) =~= seq![
            DimmerNodeActions::Brighter.token(),
            DimmerNodeActions::Darker.token(),
        ]);
        schema.add_property(
            PropertyDescriptor::new(
                DIMMER_NODE_ACTION_PROP_ID,
                "Change Brightness",
                DataType::Enum,
            ).format(ValueFormat::EnumSet(tokens)).settable(config.settable).retained(false),
        );
        assert(schema@.properties =~= dimmer_properties(*config));
        DimmerNodeBuilder { node_builder: schema }
    }

    /// Replaces the node's display name.
    pub fn name(self, name: Option<String>) -> (r: DimmerNodeBuilder)
        ensures
            r@ == self@.named(opt_text(name)),
    {
        let mut schema = self.node_builder;
        schema.set_name(name);
        DimmerNodeBuilder { node_builder: schema }
    }

    pub fn build(self) -> (r: NodeSchema)
        ensures
            r@ == self@,
    {
        self.node_builder
    }

    /// The schema, and a publisher for the node at the given address.
    pub fn build_with_publisher(self, node: NodeRef) -> (r: (NodeSchema, DimmerNodePublisher))
        ensures
            r.0@ == self@,
            r.1.node_ref() == node@,
            r.1.schema() == self@,
    {
        let publisher = DimmerNodePublisher::new(node, self.node_builder.duplicate());
        (self.node_builder, publisher)
    }
}

/// A dimmer node instance: publishes its values and decodes commands sent
/// to it.
#[derive(Debug)]
pub struct DimmerNodePublisher {
    node: NodeRef,
    schema: NodeSchema,
}

impl DimmerNodePublisher {
    pub closed spec fn node_ref(&self) -> NodeRefView {
        self.node@
    }

    pub closed spec fn schema(&self) -> SchemaView {
        self.schema@
    }

    pub fn new(node: NodeRef, schema: NodeSchema) -> (r: DimmerNodePublisher)
        ensures
            r.node_ref() == node@,
            r.schema() == schema@,
    {
        DimmerNodePublisher { node, schema }
    }

    /// Publishes the current brightness.
    pub fn brightness(&self, value: i64) -> (r: OutboundMessage)
        ensures
            r@ == outbound_spec(
                self.node_ref(),
                DIMMER_NODE_BRIGHTNESS_PROP_ID@,
                integer_text(value as int),
                true,
                false,
            ),
    {
        outbound(&self.node, DIMMER_NODE_BRIGHTNESS_PROP_ID, render_integer(value), true, false)
    }

    /// Publishes the requested brightness.
    pub fn brightness_target(&self, value: i64) -> (r: OutboundMessage)
        ensures
            r@ == outbound_spec(
                self.node_ref(),
                DIMMER_NODE_BRIGHTNESS_PROP_ID@,
                integer_text(value as int),
                true,
                true,
            ),
    {
        outbound(&self.node, DIMMER_NODE_BRIGHTNESS_PROP_ID, render_integer(value), true, true)
    }

    /// Publishes an action.
    pub fn action(&self, action: DimmerNodeActions) -> (r: OutboundMessage)
        ensures
            r@ == outbound_spec(
                self.node_ref(),
                DIMMER_NODE_ACTION_PROP_ID@,
                action.token(),
                false,
                false,
            ),
    {
        outbound(&self.node, DIMMER_NODE_ACTION_PROP_ID, action.as_str().to_owned(), false, false)
    }

    /// The dimmer event a command is, if it addresses this node, names one
    /// of its properties, and its payload decodes to a known value.
    pub fn match_parse(&self, property: &PropertyRef, set_value: &str) -> (r: Option<
        DimmerNodeSetEvents,
    >)
        ensures
            r == dimmer_event(dispatch_view(self.node_ref(), self.schema(), property@, set_value@)),
    {
        match dispatch(&self.node, &self.schema, property, set_value) {
            None => None,
            Some(v) => {
                if str_equal(property.prop_id.as_str(), DIMMER_NODE_BRIGHTNESS_PROP_ID) {
                    match v {
                        TypedValue::Integer(b) => Some(DimmerNodeSetEvents::Brightness(b)),
                        _ => None,
                    }
                } else if str_equal(property.prop_id.as_str(), DIMMER_NODE_ACTION_PROP_ID) {
                    match v {
                        TypedValue::Enum(t) => match DimmerNodeActions::from_str(t.as_str()) {
                            Ok(a) => Some(DimmerNodeSetEvents::Action(a)),
                            Err(_) => None,
                        },
                        _ => None,
                    }
                } else {
                    None
                }
            },
        }
    }

    /// As [`DimmerNodePublisher::match_parse`], for an inbound set command.
    pub fn match_parse_event(&self, event: &PropertySet) -> (r: Option<DimmerNodeSetEvents>)
        ensures
            r == dimmer_event(
                dispatch_view(self.node_ref(), self.schema(), event.property@, event.set_value@),
            ),
    {
        self.match_parse(&event.property, event.set_value.as_str())
    }
}

/// Every dimmer schema passes the schema checks: valid, distinct ids and
/// formats that suit their datatypes and admit a value.
pub proof fn lemma_dimmer_schema_valid(config: DimmerNodeConfig)
    ensures
        schema_valid(dimmer_schema(config)),
{
    reveal_strlit("brightness");
    reveal_strlit("action");
    reveal_strlit("brighter");
    reveal_strlit("darker");
    reveal_with_fuel(crate::validation::id_chars, 11);
    reveal_with_fuel(crate::validation::first_problem, 3);
    let props = dimmer_schema(config).properties;
    assert(props[1].id.len() != props[0].id.len());
}

} // verus!
