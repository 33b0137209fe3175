//! Tilt sensor: a tilted / not tilted state.
use vstd::prelude::*;

use crate::codec::{TypedValue, ValueView, encode_view};
use crate::dispatch::{NodeRef, NodeRefView, OutboundMessage, outbound_spec, publish_encoded};
use crate::format::{
    DataType, FormatView, NodeSchema, PropertyDescriptor, PropertyView, SchemaView, ValueFormat,
    opt_text, property_spec,
};
use crate::SMARTHOME_TYPE_TILT;
use crate::validation::schema_valid;

verus! {

pub const TILT_NODE_DEFAULT_ID: &'static str = "tilt";

pub const TILT_NODE_DEFAULT_NAME: &'static str = "Tilt sensor";

pub const TILT_NODE_STATE_PROP_ID: &'static str = "state";

/// A tilt sensor's runtime state.
#[derive(Debug)]
pub struct TiltNode {
    pub publisher: TiltNodePublisher,
    pub state: bool,
}

pub open spec fn state_format() -> FormatView {
    FormatView::BooleanWords { false_word: "not tilted"@, true_word: "tilted"@ }
}

fn state_words() -> (r: ValueFormat)
    ensures
        r@ == state_format(),
{
    ValueFormat::BooleanWords {
        false_word: "not tilted".to_owned(),
        true_word: "tilted".to_owned(),
    }
}
pub open spec fn state_property() -> PropertyView {
    property_spec(TILT_NODE_STATE_PROP_ID@, "Tilted state"@, DataType::Boolean)
        .with_format(state_format())
        .with_settable(false)
        .with_retained(true)
}

/// The properties a tilt sensor declares, in order.
pub open spec fn tilt_properties() -> Seq<PropertyView> {
    let a = Seq::<PropertyView>::empty();
    let decl0 = a.push(state_property());
    decl0
}

/// The schema a tilt sensor declares.
pub open spec fn tilt_schema() -> SchemaView {
    SchemaView {
        type_tag: SMARTHOME_TYPE_TILT@,
        name: Some(TILT_NODE_DEFAULT_NAME@),
        properties: tilt_properties(),
    }
}

pub struct TiltNodeBuilder {
    node_builder: NodeSchema,
}

impl View for TiltNodeBuilder {
    type V = SchemaView;

    closed spec fn view(&self) -> SchemaView {
        self.node_builder@
    }
}

impl Default for TiltNodeBuilder {
    fn default() -> (r: TiltNodeBuilder)
        ensures
            r@ == tilt_schema(),
    {
        TiltNodeBuilder::new()
    }
}

impl TiltNodeBuilder {
    pub fn new() -> (r: TiltNodeBuilder)
        ensures
            r@ == tilt_schema(),
    {
        let mut schema = NodeSchema::new(SMARTHOME_TYPE_TILT, TILT_NODE_DEFAULT_NAME);
        schema.add_property(
            PropertyDescriptor::new(TILT_NODE_STATE_PROP_ID, "Tilted state", DataType::Boolean)
                .format(state_words())
                .settable(false)
                .retained(true),
        );
        assert(schema@.properties =~= tilt_properties());
        TiltNodeBuilder { node_builder: schema }
    }

    /// Replaces the node's display name.
    pub fn name(self, name: Option<String>) -> (r: TiltNodeBuilder)
        ensures
            r@ == self@.named(opt_text(name)),
    {
        let mut schema = self.node_builder;
        schema.set_name(name);
        TiltNodeBuilder { node_builder: schema }
    }

    pub fn build(self) -> (r: NodeSchema)
        ensures
            r@ == self@,
    {
        self.node_builder
    }

    /// The schema, and a publisher for the node at the given address.
    pub fn build_with_publisher(self, node: NodeRef) -> (r: (NodeSchema, TiltNodePublisher))
        ensures
            r.0@ == self@,
            r.1.node_ref() == node@,
    {
        (self.node_builder, TiltNodePublisher::new(node))
    }
}

/// A tilt sensor instance: publishes its values.
#[derive(Debug)]
pub struct TiltNodePublisher {
    node: NodeRef,
}

impl TiltNodePublisher {
    pub closed spec fn node_ref(&self) -> NodeRefView {
        self.node@
    }

    pub fn new(node: NodeRef) -> (r: TiltNodePublisher)
        ensures
            r.node_ref() == node@,
    {
        TiltNodePublisher { node }
    }

    /// Publishes the current state.
    pub fn state(&self, value: bool) -> (r: OutboundMessage)
        ensures
            r@ == outbound_spec(
                self.node_ref(),
                TILT_NODE_STATE_PROP_ID@,
                encode_view(ValueView::Bool(value), state_format()),
                true,
                false,
            ),
    {
        publish_encoded(
            &self.node,
            TILT_NODE_STATE_PROP_ID,
            &TypedValue::Bool(value),
            &state_words(),
            true,
            false,
        )
    }
}

/// Every tilt sensor schema passes the schema checks: valid, distinct ids
/// and formats that suit their datatypes and admit a value.
pub proof fn lemma_tilt_schema_valid()
    ensures
        schema_valid(tilt_schema()),
{
    reveal_strlit("state");
    reveal_strlit("not tilted");
    reveal_strlit("tilted");
    reveal_with_fuel(crate::validation::id_chars, 6);
    reveal_with_fuel(crate::validation::first_problem, 2);
    let props = tilt_properties();
    let c0: int = 1;
    assert(props[0int] == state_property());
    assert(props.len() == 0int + c0);
}

} // verus!
