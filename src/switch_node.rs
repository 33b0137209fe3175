//! On/off switch: a boolean state with the words `off` / `on`, and a
//! `toggle` action.
use vstd::prelude::*;

use crate::codec::{DecodeError, TypedValue, ValueView, encode_view, str_equal};
use crate::dispatch::{
    NodeRef, NodeRefView, OutboundMessage, PropertyRef, PropertySet, dispatch,
    dispatch_view, outbound, outbound_spec, publish_encoded,
};
use crate::format::{
    DataType, FormatView, NodeSchema, PropertyDescriptor, PropertyView, SchemaView, ValueFormat,
    opt_text, property_spec, texts,
};
use crate::SMARTHOME_TYPE_SWITCH;
use crate::validation::schema_valid;

verus! {

pub const SWITCH_NODE_DEFAULT_ID: &'static str = "switch";

pub const SWITCH_NODE_DEFAULT_NAME: &'static str = "On/Off switch";

pub const SWITCH_NODE_STATE_PROP_ID: &'static str = "state";

pub const SWITCH_NODE_ACTION_PROP_ID: &'static str = "action";

/// A switch node's runtime state.
#[derive(Debug)]
pub struct SwitchNode {
    pub publisher: SwitchNodePublisher,
    pub state: bool,
    pub state_target: bool,
}

#[derive(Debug, PartialEq, Eq, Clone, Copy, Structural)]
pub enum SwitchNodeActions {
    Toggle,
}

impl SwitchNodeActions {
    pub open spec fn token(self) -> Seq<char> {
        match self {
            SwitchNodeActions::Toggle => "toggle"@,
        }
    }

    pub open spec fn of_token(s: Seq<char>) -> Option<SwitchNodeActions> {
        if s == "toggle"@ {
            Some(SwitchNodeActions::Toggle)
        } else {
            None
        }
    }

    pub fn as_str(&self) -> (r: &'static str)
        ensures
            r@ == self.token(),
    {
        match self {
            SwitchNodeActions::Toggle => "toggle",
        }
    }

    pub fn to_string(&self) -> (r: String)
        ensures
            r@ == self.token(),
    {
        self.as_str().to_owned()
    }

    /// The action a token names.
    pub fn try_from(value: &str) -> (r: Result<SwitchNodeActions, DecodeError>)
        ensures
            r == match SwitchNodeActions::of_token(value@) {
                Some(a) => Ok::<SwitchNodeActions, DecodeError>(a),
                None => Err(DecodeError::InvalidPayload),
            },
    {
        if str_equal(value, "toggle") {
            Ok(SwitchNodeActions::Toggle)
        } else {
            Err(DecodeError::InvalidPayload)
        }
    }
}

#[derive(Debug, PartialEq, Eq, Clone, Copy, Structural)]
pub enum SwitchNodeSetEvents {
    State(bool),
    Action(SwitchNodeActions),
}

#[derive(Debug, PartialEq, Eq, Clone, Copy, Structural)]
pub struct SwitchNodeConfig {
    pub settable: bool,
}

impl Default for SwitchNodeConfig {
    fn default() -> (r: SwitchNodeConfig)
        ensures
            r.settable,
    {
        SwitchNodeConfig { settable: true }
    }
}

pub open spec fn state_format() -> FormatView {
    FormatView::BooleanWords { false_word: "off"@, true_word: "on"@ }
}

pub open spec fn switch_properties(config: SwitchNodeConfig) -> Seq<PropertyView> {
    seq![
        property_spec(SWITCH_NODE_STATE_PROP_ID@, "On/Off state"@, DataType::Boolean).with_format(
            state_format(),
        ).with_settable(config.settable).with_retained(true),
        property_spec(SWITCH_NODE_ACTION_PROP_ID@, "Change state"@, DataType::Enum).with_format(
            FormatView::EnumSet(seq![SwitchNodeActions::Toggle.token()]),
        ).with_settable(config.settable).with_retained(false),
    ]
}

/// The schema a switch configuration declares.
pub open spec fn switch_schema(config: SwitchNodeConfig) -> SchemaView {
    SchemaView {
        type_tag: SMARTHOME_TYPE_SWITCH@,
        name: Some(SWITCH_NODE_DEFAULT_NAME@),
        properties: switch_properties(config),
    }
}

/// The event a dispatched command is, if it is one of the switch's.
pub open spec fn switch_event(d: Option<(Seq<char>, ValueView)>) -> Option<SwitchNodeSetEvents> {
    match d {
        Some(p) => if p.0 == SWITCH_NODE_STATE_PROP_ID@ {
            match p.1 {
                ValueView::Bool(b) => Some(SwitchNodeSetEvents::State(b)),
                _ => None,
            }
        } else if p.0 == SWITCH_NODE_ACTION_PROP_ID@ {
            match p.1 {
                ValueView::Enum(t) => match SwitchNodeActions::of_token(t) {
                    Some(a) => Some(SwitchNodeSetEvents::Action(a)),
                    None => None,
                },
                _ => None,
            }
        } else {
            None
        },
        None => None,
    }
}

fn state_words() -> (r: ValueFormat)
    ensures
        r@ == state_format(),
{
    ValueFormat::BooleanWords { false_word: "off".to_owned(), true_word: "on".to_owned() }
}

pub struct SwitchNodeBuilder {
    node_builder: NodeSchema,
}

impl View for SwitchNodeBuilder {
    type V = SchemaView;

    closed spec fn view(&self) -> SchemaView {
        self.node_builder@
    }
}

impl SwitchNodeBuilder {
    pub fn new(config: &SwitchNodeConfig) -> (r: SwitchNodeBuilder)
        ensures
            r@ == switch_schema(*config),
    {
        let mut schema = NodeSchema::new(SMARTHOME_TYPE_SWITCH, SWITCH_NODE_DEFAULT_NAME);
        schema.add_property(
            PropertyDescriptor::new(
                SWITCH_NODE_STATE_PROP_ID,
                "On/Off state",
                DataType::Boolean,
            ).format(state_words()).settable(config.settable).retained(true),
        );
        let tokens = vec![SwitchNodeActions::Toggle.to_string()];
        assert(texts(tokens@) =~= seq![SwitchNodeActions::Toggle.token()]);
        schema.add_property(
            PropertyDescriptor::new(
                SWITCH_NODE_ACTION_PROP_ID,
                "Change state",
                DataType::Enum,
            ).format(ValueFormat::EnumSet(tokens)).settable(config.settable).retained(false),
        );
        assert(schema@.properties =~= switch_properties(*config));
        SwitchNodeBuilder { node_builder: schema }
    }

    /// Replaces the node's display name.
    pub fn name(self, name: Option<String>) -> (r: SwitchNodeBuilder)
        ensures
            r@ == self@.named(opt_text(name)),
    {
        let mut schema = self.node_builder;
        schema.set_name(name);
        SwitchNodeBuilder { node_builder: schema }
    }

    pub fn build(self) -> (r: NodeSchema)
        ensures
            r@ == self@,
    {
        self.node_builder
    }

    /// The schema, and a publisher for the node at the given address.
    pub fn build_with_publisher(self, node: NodeRef) -> (r: (NodeSchema, SwitchNodePublisher))
        ensures
            r.0@ == self@,
            r.1.node_ref() == node@,
            r.1.schema() == self@,
    {
        let publisher = SwitchNodePublisher::new(node, self.node_builder.duplicate());
        (self.node_builder, publisher)
    }
}

/// A switch node instance: publishes its values and decodes commands sent
/// to it.
#[derive(Debug)]
pub struct SwitchNodePublisher {
    node: NodeRef,
    schema: NodeSchema,
}

impl SwitchNodePublisher {
    pub closed spec fn node_ref(&self) -> NodeRefView {
        self.node@
    }

    pub closed spec fn schema(&self) -> SchemaView {
        self.schema@
    }

    pub fn new(node: NodeRef, schema: NodeSchema) -> (r: SwitchNodePublisher)
        ensures
            r.node_ref() == node@,
            r.schema() == schema@,
    {
        SwitchNodePublisher { node, schema }
    }

    /// Publishes the current state.
    pub fn state(&self, value: bool) -> (r: OutboundMessage)
        ensures
            r@ == outbound_spec(
                self.node_ref(),
                SWITCH_NODE_STATE_PROP_ID@,
                encode_view(ValueView::Bool(value), state_format()),
                true,
                false,
            ),
    {
        publish_encoded(
            &self.node,
            SWITCH_NODE_STATE_PROP_ID,
            &TypedValue::Bool(value),
            &state_words(),
            true,
            false,
        )
    }

    /// Publishes the requested state.
    pub fn state_target(&self, value: bool) -> (r: OutboundMessage)
        ensures
            r@ == outbound_spec(
                self.node_ref(),
                SWITCH_NODE_STATE_PROP_ID@,
                encode_view(ValueView::Bool(value), state_format()),
                true,
                true,
            ),
    {
        publish_encoded(
            &self.node,
            SWITCH_NODE_STATE_PROP_ID,
            &TypedValue::Bool(value),
            &state_words(),
            true,
            true,
        )
    }

    /// Publishes the toggle action.
    pub fn action(&self) -> (r: OutboundMessage)
        ensures
            r@ == outbound_spec(
                self.node_ref(),
                SWITCH_NODE_ACTION_PROP_ID@,
                SwitchNodeActions::Toggle.token(),
                false,
                false,
            ),
    {
        outbound(
            &self.node,
            SWITCH_NODE_ACTION_PROP_ID,
            SwitchNodeActions::Toggle.to_string(),
            false,
            false,
        )
    }

    /// The switch event a command is, if it addresses this node, names one
    /// of its properties, and its payload decodes to a known value.
    pub fn match_parse(&self, property: &PropertyRef, set_value: &str) -> (r: Option<
        SwitchNodeSetEvents,
    >)
        ensures
            r == switch_event(dispatch_view(self.node_ref(), self.schema(), property@, set_value@)),
    {
        match dispatch(&self.node, &self.schema, property, set_value) {
            None => None,
            Some(v) => {
                if str_equal(property.prop_id.as_str(), SWITCH_NODE_STATE_PROP_ID) {
                    match v {
                        TypedValue::Bool(b) => Some(SwitchNodeSetEvents::State(b)),
                        _ => None,
                    }
                } else if str_equal(property.prop_id.as_str(), SWITCH_NODE_ACTION_PROP_ID) {
                    match v {
                        TypedValue::Enum(t) => match SwitchNodeActions::try_from(t.as_str()) {
                            Ok(a) => Some(SwitchNodeSetEvents::Action(a)),
                            Err(_) => None,
                        },
                        _ => None,
                    }
                } else {
                    None
                }
            },
        }
    }

    /// As [`SwitchNodePublisher::match_parse`], for an inbound set command.
    pub fn match_parse_event(&self, event: &PropertySet) -> (r: Option<SwitchNodeSetEvents>)
        ensures
            r == switch_event(
                dispatch_view(self.node_ref(), self.schema(), event.property@, event.set_value@),
            ),
    {
        self.match_parse(&event.property, event.set_value.as_str())
    }
}

/// Every switch schema passes the schema checks: valid, distinct ids and
/// formats that suit their datatypes and admit a value.
pub proof fn lemma_switch_schema_valid(config: SwitchNodeConfig)
    ensures
        schema_valid(switch_schema(config)),
{
    reveal_strlit("state");
    reveal_strlit("action");
    reveal_strlit("off");
    reveal_strlit("on");
    reveal_strlit("toggle");
    reveal_with_fuel(crate::validation::id_chars, 7);
    reveal_with_fuel(crate::validation::first_problem, 3);
    let props = switch_schema(config).properties;
    assert(props[1].id.len() != props[0].id.len());
    assert(seq![SwitchNodeActions::Toggle.token()][0].len() > 0);
}

} // verus!
