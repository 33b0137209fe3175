//! Push button: a read-only `action` property whose tokens are the
//! configured button events.
use vstd::prelude::*;

use crate::codec::{DecodeError, str_equal};
use crate::dispatch::{NodeRef, NodeRefView, OutboundMessage, outbound, outbound_spec};
use crate::format::{
    DataType, FormatView, NodeSchema, PropertyDescriptor, PropertyView, SchemaView, ValueFormat,
    opt_text, property_spec, texts,
};
use crate::SMARTHOME_TYPE_BUTTON;
use crate::validation::schema_valid;

verus! {

pub const BUTTON_NODE_DEFAULT_ID: &'static str = "button";

pub const BUTTON_NODE_DEFAULT_NAME: &'static str = "Pushbutton";

pub const BUTTON_NODE_ACTION_PROP_ID: &'static str = "action";

/// Button events.
#[derive(Debug, PartialEq, Eq, Clone, Copy, Structural)]
pub enum ButtonNodeActions {
    Press,
    LongPress,
    DoublePress,
    Release,
    LongRelease,
    Continuous,
}

impl ButtonNodeActions {
    pub open spec fn token(self) -> Seq<char> {
        match self {
            ButtonNodeActions::Press => "press"@,
            ButtonNodeActions::LongPress => "long-press"@,
            ButtonNodeActions::DoublePress => "double-press"@,
            ButtonNodeActions::Release => "release"@,
            ButtonNodeActions::LongRelease => "long-release"@,
            ButtonNodeActions::Continuous => "continuous"@,
        }
    }

    pub fn as_str(&self) -> (r: &'static str)
        ensures
            r@ == self.token(),
    {
        match self {
            ButtonNodeActions::Press => "press",
            ButtonNodeActions::LongPress => "long-press",
            ButtonNodeActions::DoublePress => "double-press",
            ButtonNodeActions::Release => "release",
            ButtonNodeActions::LongRelease => "long-release",
            ButtonNodeActions::Continuous => "continuous",
        }
    }

    pub fn to_string(&self) -> (r: String)
        ensures
            r@ == self.token(),
    {
        self.as_str().to_owned()
    }

    /// Parses a button event; only `press` is read back.
    pub fn from_str(s: &str) -> (r: Result<ButtonNodeActions, DecodeError>)
        ensures
            r == if s@ == "press"@ {
                Ok::<ButtonNodeActions, DecodeError>(ButtonNodeActions::Press)
            } else {
                Err(DecodeError::InvalidPayload)
            },
    {
        if str_equal(s, "press") {
            Ok(ButtonNodeActions::Press)
        } else {
            Err(DecodeError::InvalidPayload)
        }
    }

    /// The events a button reports by default.
    pub fn all_variants() -> (r: Vec<ButtonNodeActions>)
        ensures
            r@ == seq![ButtonNodeActions::Press],
    {
        let r = vec![ButtonNodeActions::Press];
        assert(r@ =~= seq![ButtonNodeActions::Press]);
        r
    }

    /// The tokens of [`ButtonNodeActions::all_variants`].
    pub fn to_string_vec() -> (r: Vec<String>)
        ensures
            texts(r@) == seq![ButtonNodeActions::Press.token()],
    {
        action_texts(&ButtonNodeActions::all_variants())
    }
}

pub open spec fn action_tokens(actions: Seq<ButtonNodeActions>) -> Seq<Seq<char>> {
    actions.map_values(|a: ButtonNodeActions| a.token())
}

fn action_texts(actions: &Vec<ButtonNodeActions>) -> (r: Vec<String>)
    ensures
        texts(r@) == action_tokens(actions@),
{
    let mut r: Vec<String> = Vec::new();
    let mut i: usize = 0;
    while i < actions.len()
        invariant
            i <= actions@.len(),
            r@.len() == i,
            forall|j: int| 0 <= j < i ==> (#[trigger] r@[j])@ == actions@[j].token(),
        decreases actions@.len() - i,
    {
        r.push(actions[i].to_string());
        i = i + 1;
    }
    assert(texts(r@) =~= action_tokens(actions@));
    r
}

#[derive(Debug, PartialEq, Eq, Clone)]
pub struct ButtonNodeConfig {
    pub actions: Vec<ButtonNodeActions>,
}

impl Default for ButtonNodeConfig {
    fn default() -> (r: ButtonNodeConfig)
        ensures
            r.actions@ == seq![ButtonNodeActions::Press],
    {
        let r = ButtonNodeConfig { actions: vec![ButtonNodeActions::Press] };
        assert(r.actions@ =~= seq![ButtonNodeActions::Press]);
        r
    }
}

pub open spec fn button_property(actions: Seq<ButtonNodeActions>) -> PropertyView {
    property_spec(BUTTON_NODE_ACTION_PROP_ID@, "Button action event"@, DataType::Enum).with_format(
        FormatView::EnumSet(action_tokens(actions)),
    ).with_settable(false).with_retained(false)
}

/// The schema a button reporting the given events declares.
pub open spec fn button_schema(actions: Seq<ButtonNodeActions>) -> SchemaView {
    SchemaView {
        type_tag: SMARTHOME_TYPE_BUTTON@,
        name: Some(BUTTON_NODE_DEFAULT_NAME@),
        properties: seq![button_property(actions)],
    }
}

pub struct ButtonNodeBuilder {
    node_builder: NodeSchema,
}

impl View for ButtonNodeBuilder {
    type V = SchemaView;

    closed spec fn view(&self) -> SchemaView {
        self.node_builder@
    }
}

impl Default for ButtonNodeBuilder {
    fn default() -> (r: ButtonNodeBuilder)
        ensures
            r@ == button_schema(seq![ButtonNodeActions::Press]),
    {
        ButtonNodeBuilder::new(&ButtonNodeConfig::default())
    }
}

impl ButtonNodeBuilder {
    /// The button schema; the button must report at least one event, since
    /// an empty token set cannot be advertised.
    pub fn new(config: &ButtonNodeConfig) -> (r: ButtonNodeBuilder)
        requires
            config.actions@.len() > 0,
        ensures
            r@ == button_schema(config.actions@),
    {
        let mut schema = NodeSchema::new(SMARTHOME_TYPE_BUTTON, BUTTON_NODE_DEFAULT_NAME);
        schema.add_property(
            PropertyDescriptor::new(
                BUTTON_NODE_ACTION_PROP_ID,
                "Button action event",
                DataType::Enum,
            ).format(ValueFormat::EnumSet(action_texts(&config.actions))).settable(false).retained(
                false,
            ),
        );
        assert(schema@.properties =~= seq![button_property(config.actions@)]);
        ButtonNodeBuilder { node_builder: schema }
    }

    /// Replaces the node's display name.
    pub fn name(self, name: Option<String>) -> (r: ButtonNodeBuilder)
        ensures
            r@ == self@.named(opt_text(name)),
    {
        let mut schema = self.node_builder;
        schema.set_name(name);
        ButtonNodeBuilder { node_builder: schema }
    }

    pub fn build(self) -> (r: NodeSchema)
        ensures
            r@ == self@,
    {
        self.node_builder
    }

    /// The schema, and a publisher for the node at the given address.
    pub fn build_with_publisher(self, node: NodeRef) -> (r: (NodeSchema, ButtonNodePublisher))
        ensures
            r.0@ == self@,
            r.1.node_ref() == node@,
    {
        (self.node_builder, ButtonNodePublisher::new(node))
    }
}

/// A button instance: publishes its events.
#[derive(Debug)]
pub struct ButtonNodePublisher {
    node: NodeRef,
}

impl ButtonNodePublisher {
    pub closed spec fn node_ref(&self) -> NodeRefView {
        self.node@
    }

    pub fn new(node: NodeRef) -> (r: ButtonNodePublisher)
        ensures
            r.node_ref() == node@,
    {
        ButtonNodePublisher { node }
    }

    /// Publishes a button event.
    pub fn action(&self, kind: &ButtonNodeActions) -> (r: OutboundMessage)
        ensures
            r@ == outbound_spec(
                self.node_ref(),
                BUTTON_NODE_ACTION_PROP_ID@,
                kind.token(),
                false,
                false,
            ),
    {
        outbound(&self.node, BUTTON_NODE_ACTION_PROP_ID, kind.to_string(), false, false)
    }
}

/// A button schema passes the schema checks (a valid id and a format that
/// admits a value) where it reports at least one event.
pub proof fn lemma_button_schema_valid(actions: Seq<ButtonNodeActions>)
    requires
        actions.len() > 0,
    ensures
        schema_valid(button_schema(actions)),
{
    reveal_strlit("action");
    reveal_strlit("press");
    reveal_strlit("long-press");
    reveal_strlit("double-press");
    reveal_strlit("release");
    reveal_strlit("long-release");
    reveal_strlit("continuous");
    reveal_with_fuel(crate::validation::id_chars, 7);
    reveal_with_fuel(crate::validation::first_problem, 2);
    let t = action_tokens(actions);
    assert forall|k: int| 0 <= k < t.len() implies t[k].len() > 0 by {
        assert(t[k] == actions[k].token());
    }
}

} // verus!
