//! Shutter: a position in percent (0 to 100) and `up` / `down` actions, with
//! `stop` where the shutter can stop.
use vstd::prelude::*;

use crate::codec::{DecodeError, TypedValue, ValueView, str_equal};
use crate::dispatch::{
    NodeRef, NodeRefView, OutboundMessage, PropertyRef, PropertySet, dispatch, dispatch_view,
    outbound, outbound_spec,
};
use crate::format::{
    DataType, FormatView, IntegerRange, NodeSchema, PropertyDescriptor, PropertyView, SchemaView,
    UNIT_PERCENT, ValueFormat, opt_text, property_spec, texts,
};
use crate::numeric::{integer_text, render_integer};
use crate::SMARTHOME_TYPE_SHUTTER;
use crate::validation::schema_valid;

verus! {

pub const SHUTTER_NODE_DEFAULT_ID: &'static str = "shutter";

pub const SHUTTER_NODE_DEFAULT_NAME: &'static str = "Shutter control";

pub const SHUTTER_NODE_POSITION_PROP_ID: &'static str = "position";

pub const SHUTTER_NODE_ACTION_PROP_ID: &'static str = "action";

/// A shutter node's runtime state.
#[derive(Debug)]
pub struct ShutterNode {
    pub publisher: ShutterNodePublisher,
    pub position: i64,
    pub position_target: i64,
}

#[derive(Debug, PartialEq, Eq, Clone, Copy, Structural)]
pub enum ShutterNodeActions {
    Up,
    Down,
    Stop,
}

impl ShutterNodeActions {
    pub open spec fn token(self) -> Seq<char> {
        match self {
            ShutterNodeActions::Up => "up"@,
            ShutterNodeActions::Down => "down"@,
            ShutterNodeActions::Stop => "stop"@,
        }
    }

    pub open spec fn of_token(s: Seq<char>) -> Option<ShutterNodeActions> {
        if s == "up"@ {
            Some(ShutterNodeActions::Up)
        } else if s == "down"@ {
            Some(ShutterNodeActions::Down)
        } else if s == "stop"@ {
            Some(ShutterNodeActions::Stop)
        } else {
            None
        }
    }

    pub fn as_str(&self) -> (r: &'static str)
        ensures
            r@ == self.token(),
    {
        match self {
            ShutterNodeActions::Up => "up",
            ShutterNodeActions::Down => "down",
            ShutterNodeActions::Stop => "stop",
        }
    }

    pub fn to_string(&self) -> (r: String)
        ensures
            r@ == self.token(),
    {
        self.as_str().to_owned()
    }

    /// The action a token names.
    pub fn from_str(s: &str) -> (r: Result<ShutterNodeActions, DecodeError>)
        ensures
            r == match ShutterNodeActions::of_token(s@) {
                Some(a) => Ok::<ShutterNodeActions, DecodeError>(a),
                None => Err(DecodeError::InvalidPayload),
            },
    {
        if str_equal(s, "up") {
            Ok(ShutterNodeActions::Up)
        } else if str_equal(s, "down") {
            Ok(ShutterNodeActions::Down)
        } else if str_equal(s, "stop") {
            Ok(ShutterNodeActions::Stop)
        } else {
            Err(DecodeError::InvalidPayload)
        }
    }
}

#[derive(Debug, PartialEq, Eq, Clone, Copy, Structural)]
pub enum ShutterNodeSetEvents {
    Position(i64),
    Action(ShutterNodeActions),
}

#[derive(Debug, PartialEq, Eq, Clone, Copy, Structural)]
pub struct ShutterNodeConfig {
    pub can_stop: bool,
}

impl Default for ShutterNodeConfig {
    fn default() -> (r: ShutterNodeConfig)
        ensures
            r.can_stop,
    {
        ShutterNodeConfig { can_stop: true }
    }
}

/// The actions a shutter offers: `up`, `down`, and `stop` where it can stop.
pub open spec fn shutter_tokens(config: ShutterNodeConfig) -> Seq<Seq<char>> {
    if config.can_stop {
        seq![
            ShutterNodeActions::Up.token(),
            ShutterNodeActions::Down.token(),
            ShutterNodeActions::Stop.token(),
        ]
    } else {
        seq![ShutterNodeActions::Up.token(), ShutterNodeActions::Down.token()]
    }
}

pub open spec fn position_range() -> IntegerRange {
    IntegerRange { min: Some(0), max: Some(100), step: None }
}

pub open spec fn shutter_properties(config: ShutterNodeConfig) -> Seq<PropertyView> {
    seq![
        property_spec(SHUTTER_NODE_POSITION_PROP_ID@, "Shutter position"@, DataType::Integer)
            .with_format(FormatView::IntegerRange(position_range()))
            .with_unit(UNIT_PERCENT@)
            .with_settable(true)
            .with_retained(true),
        property_spec(SHUTTER_NODE_ACTION_PROP_ID@, "Control Shutter"@, DataType::Enum).with_format(
            FormatView::EnumSet(shutter_tokens(config)),
        ).with_settable(true).with_retained(false),
    ]
}

/// The schema a shutter configuration declares.
pub open spec fn shutter_schema(config: ShutterNodeConfig) -> SchemaView {
    SchemaView {
        type_tag: SMARTHOME_TYPE_SHUTTER@,
        name: Some(SHUTTER_NODE_DEFAULT_NAME@),
        properties: shutter_properties(config),
    }
}

/// The event a dispatched command is, if it is one of the shutter's.
pub open spec fn shutter_event(d: Option<(Seq<char>, ValueView)>) -> Option<ShutterNodeSetEvents> {
    match d {
        Some(p) => if p.0 == SHUTTER_NODE_POSITION_PROP_ID@ {
            match p.1 {
                ValueView::Integer(v) => Some(ShutterNodeSetEvents::Position(v)),
                _ => None,
            }
        } else if p.0 == SHUTTER_NODE_ACTION_PROP_ID@ {
            match p.1 {
                ValueView::Enum(t) => match ShutterNodeActions::of_token(t) {
                    Some(a) => Some(ShutterNodeSetEvents::Action(a)),
                    None => None,
                },
                _ => None,
            }
        } else {
            None
        },
        None => None,
    }
}

pub struct ShutterNodeBuilder {
    node_builder: NodeSchema,
}

impl View for ShutterNodeBuilder {
    type V = SchemaView;

    closed spec fn view(&self) -> SchemaView {
        self.node_builder@
    }
}

impl ShutterNodeBuilder {
    pub fn new(config: &ShutterNodeConfig) -> (r: ShutterNodeBuilder)
        ensures
            r@ == shutter_schema(*config),
    {
        let mut actions: Vec<ShutterNodeActions> = vec![
            ShutterNodeActions::Up,
            ShutterNodeActions::Down,
        ];
        if config.can_stop {
            actions.push(ShutterNodeActions::Stop);
        }
        let mut tokens: Vec<String> = Vec::new();
        let mut i: usize = 0;
        while i < actions.len()
            invariant
                i <= actions@.len(),
                tokens@.len() == i,
                forall|j: int| 0 <= j < i ==> (#[trigger] tokens@[j])@ == actions@[j].token(),
            decreases actions@.len() - i,
        {
            tokens.push(actions[i].to_string());
            i = i + 1;
        }
        assert(texts(tokens@) =~= shutter_tokens(*config));
        let mut schema = NodeSchema::new(SMARTHOME_TYPE_SHUTTER, SHUTTER_NODE_DEFAULT_NAME);
        schema.add_property(
            PropertyDescriptor::new(
                SHUTTER_NODE_POSITION_PROP_ID,
                "Shutter position",
                DataType::Integer,
            ).format(
                ValueFormat::IntegerRange(
                    IntegerRange { min: Some(0), max: Some(100), step: None }
                ),
            ).unit(UNIT_PERCENT).settable(true).retained(true),
        );
        schema.add_property(
            PropertyDescriptor::new(
                SHUTTER_NODE_ACTION_PROP_ID,
                "Control Shutter",
                DataType::Enum,
            ).format(ValueFormat::EnumSet(tokens)).settable(true).retained(false),
        );
        assert(schema@.properties =~= shutter_properties(*config));
        ShutterNodeBuilder { node_builder: schema }
    }

    /// Replaces the node's display name.
    pub fn name(self, name: Option<String>) -> (r: ShutterNodeBuilder)
        ensures
            r@ == self@.named(opt_text(name)),
    {
        let mut schema = self.node_builder;
        schema.set_name(name);
        ShutterNodeBuilder { node_builder: schema }
    }

    pub fn build(self) -> (r: NodeSchema)
        ensures
            r@ == self@,
    {
        self.node_builder
    }

    /// The schema, and a publisher for the node at the given address.
    pub fn build_with_publisher(self, node: NodeRef) -> (r: (NodeSchema, ShutterNodePublisher))
        ensures
            r.0@ == self@,
            r.1.node_ref() == node@,
            r.1.schema() == self@,
    {
        let publisher = ShutterNodePublisher::new(node, self.node_builder.duplicate());
        (self.node_builder, publisher)
    }
}

/// A shutter node instance: publishes its values and decodes commands sent
/// to it.
#[derive(Debug)]
pub struct ShutterNodePublisher {
    node: NodeRef,
    schema: NodeSchema,
}

impl ShutterNodePublisher {
    pub closed spec fn node_ref(&self) -> NodeRefView {
        self.node@
    }

    pub closed spec fn schema(&self) -> SchemaView {
        self.schema@
    }

    pub fn new(node: NodeRef, schema: NodeSchema) -> (r: ShutterNodePublisher)
        ensures
            r.node_ref() == node@,
            r.schema() == schema@,
    {
        ShutterNodePublisher { node, schema }
    }

    /// Publishes the current position.
    pub fn position(&self, value: i64) -> (r: OutboundMessage)
        ensures
            r@ == outbound_spec(
                self.node_ref(),
                SHUTTER_NODE_POSITION_PROP_ID@,
                integer_text(value as int),
                true,
                false,
            ),
    {
        outbound(&self.node, SHUTTER_NODE_POSITION_PROP_ID, render_integer(value), true, false)
    }

    /// Publishes the requested position.
    pub fn position_target(&self, value: i64) -> (r: OutboundMessage)
        ensures
            r@ == outbound_spec(
                self.node_ref(),
                SHUTTER_NODE_POSITION_PROP_ID@,
                integer_text(value as int),
                true,
                true,
            ),
    {
        outbound(&self.node, SHUTTER_NODE_POSITION_PROP_ID, render_integer(value), true, true)
    }

    /// Publishes an action.
    pub fn action(&self, action: ShutterNodeActions) -> (r: OutboundMessage)
        ensures
            r@ == outbound_spec(
                self.node_ref(),
                SHUTTER_NODE_ACTION_PROP_ID@,
                action.token(),
                false,
                false,
            ),
    {
        outbound(&self.node, SHUTTER_NODE_ACTION_PROP_ID, action.to_string(), false, false)
    }

    /// The shutter event a command is, if it addresses this node, names one
    /// of its properties, and its payload decodes to a known value.
    pub fn match_parse(&self, property: &PropertyRef, set_value: &str) -> (r: Option<
        ShutterNodeSetEvents,
    >)
        ensures
            r == shutter_event(
                dispatch_view(self.node_ref(), self.schema(), property@, set_value@)
            ),
    {
        match dispatch(&self.node, &self.schema, property, set_value) {
            None => None,
            Some(v) => {
                if str_equal(property.prop_id.as_str(), SHUTTER_NODE_POSITION_PROP_ID) {
                    match v {
                        TypedValue::Integer(b) => Some(ShutterNodeSetEvents::Position(b)),
                        _ => None,
                    }
                } else if str_equal(property.prop_id.as_str(), SHUTTER_NODE_ACTION_PROP_ID) {
                    match v {
                        TypedValue::Enum(t) => match ShutterNodeActions::from_str(t.as_str()) {
                            Ok(a) => Some(ShutterNodeSetEvents::Action(a)),
                            Err(_) => None,
                        },
                        _ => None,
                    }
                } else {
                    None
                }
            },
        }
    }

    /// As [`ShutterNodePublisher::match_parse`], for an inbound set command.
    pub fn match_parse_event(&self, event: &PropertySet) -> (r: Option<ShutterNodeSetEvents>)
        ensures
            r == shutter_event(
                dispatch_view(self.node_ref(), self.schema(), event.property@, event.set_value@),
            ),
    {
        self.match_parse(&event.property, event.set_value.as_str())
    }
}

/// Every shutter schema passes the schema checks: valid, distinct ids and
/// formats that suit their datatypes and admit a value.
pub proof fn lemma_shutter_schema_valid(config: ShutterNodeConfig)
    ensures
        schema_valid(shutter_schema(config)),
{
    reveal_strlit("position");
    reveal_strlit("action");
    reveal_strlit("up");
    reveal_strlit("down");
    reveal_strlit("stop");
    reveal_with_fuel(crate::validation::id_chars, 9);
    reveal_with_fuel(crate::validation::first_problem, 3);
    let props = shutter_schema(config).properties;
    assert(props[1].id.len() != props[0].id.len());
}

} // verus!
