//! Contact sensor: an open/closed state.
use vstd::prelude::*;

use crate::codec::{TypedValue, ValueView, encode_view};
use crate::dispatch::{NodeRef, NodeRefView, OutboundMessage, outbound_spec, publish_encoded};
use crate::format::{
    DataType, FormatView, NodeSchema, PropertyDescriptor, PropertyView, SchemaView, ValueFormat,
    opt_text, property_spec,
};
use crate::SMARTHOME_TYPE_CONTACT;
use crate::validation::schema_valid;

verus! {

pub const CONTACT_NODE_DEFAULT_ID: &'static str = "contact";

pub const CONTACT_NODE_DEFAULT_NAME: &'static str = "Open/Close contact";

pub const CONTACT_NODE_STATE_PROP_ID: &'static str = "state";

/// A contact sensor's runtime state.
#[derive(Debug)]
pub struct ContactNode {
    pub publisher: ContactNodePublisher,
    pub state: bool,
}

pub open spec fn state_format() -> FormatView {
    FormatView::BooleanWords { false_word: "closed"@, true_word: "open"@ }
}

fn state_words() -> (r: ValueFormat)
    ensures
        r@ == state_format(),
{
    ValueFormat::BooleanWords { false_word: "closed".to_owned(), true_word: "open".to_owned() }
}
pub open spec fn state_property() -> PropertyView {
    property_spec(CONTACT_NODE_STATE_PROP_ID@, "Open/Close state"@, DataType::Boolean)
        .with_format(state_format())
        .with_settable(false)
        .with_retained(true)
}

/// The properties a contact sensor declares, in order.
pub open spec fn contact_properties() -> Seq<PropertyView> {
    let a = Seq::<PropertyView>::empty();
    let decl0 = a.push(state_property());
    decl0
}

/// The schema a contact sensor declares.
pub open spec fn contact_schema() -> SchemaView {
    SchemaView {
        type_tag: SMARTHOME_TYPE_CONTACT@,
        name: Some(CONTACT_NODE_DEFAULT_NAME@),
        properties: contact_properties(),
    }
}

pub struct ContactNodeBuilder {
    node_builder: NodeSchema,
}

impl View for ContactNodeBuilder {
    type V = SchemaView;

    closed spec fn view(&self) -> SchemaView {
        self.node_builder@
    }
}

impl Default for ContactNodeBuilder {
    fn default() -> (r: ContactNodeBuilder)
        ensures
            r@ == contact_schema(),
    {
        ContactNodeBuilder::new()
    }
}

impl ContactNodeBuilder {
    pub fn new() -> (r: ContactNodeBuilder)
        ensures
            r@ == contact_schema(),
    {
        let mut schema = NodeSchema::new(SMARTHOME_TYPE_CONTACT, CONTACT_NODE_DEFAULT_NAME);
        schema.add_property(
            PropertyDescriptor::new(
                CONTACT_NODE_STATE_PROP_ID,
                "Open/Close state",
                DataType::Boolean,
            )
                .format(state_words())
                .settable(false)
                .retained(true),
        );
        assert(schema@.properties =~= contact_properties());
        ContactNodeBuilder { node_builder: schema }
    }

    /// Replaces the node's display name.
    pub fn name(self, name: Option<String>) -> (r: ContactNodeBuilder)
        ensures
            r@ == self@.named(opt_text(name)),
    {
        let mut schema = self.node_builder;
        schema.set_name(name);
        ContactNodeBuilder { node_builder: schema }
    }

    pub fn build(self) -> (r: NodeSchema)
        ensures
            r@ == self@,
    {
        self.node_builder
    }

    /// The schema, and a publisher for the node at the given address.
    pub fn build_with_publisher(self, node: NodeRef) -> (r: (NodeSchema, ContactNodePublisher))
        ensures
            r.0@ == self@,
            r.1.node_ref() == node@,
    {
        (self.node_builder, ContactNodePublisher::new(node))
    }
}

/// A contact sensor instance: publishes its values.
#[derive(Debug)]
pub struct ContactNodePublisher {
    node: NodeRef,
}

impl ContactNodePublisher {
    pub closed spec fn node_ref(&self) -> NodeRefView {
        self.node@
    }

    pub fn new(node: NodeRef) -> (r: ContactNodePublisher)
        ensures
            r.node_ref() == node@,
    {
        ContactNodePublisher { node }
    }

    /// Publishes the current state.
    pub fn state(&self, value: bool) -> (r: OutboundMessage)
        ensures
            r@ == outbound_spec(
                self.node_ref(),
                CONTACT_NODE_STATE_PROP_ID@,
                encode_view(ValueView::Bool(value), state_format()),
                true,
                false,
            ),
    {
        publish_encoded(
            &self.node,
            CONTACT_NODE_STATE_PROP_ID,
            &TypedValue::Bool(value),
            &state_words(),
            true,
            false,
        )
    }
}

/// Every contact sensor schema passes the schema checks: valid, distinct ids
/// and formats that suit their datatypes and admit a value.
pub proof fn lemma_contact_schema_valid()
    ensures
        schema_valid(contact_schema()),
{
    reveal_strlit("state");
    reveal_strlit("closed");
    reveal_strlit("open");
    reveal_with_fuel(crate::validation::id_chars, 6);
    reveal_with_fuel(crate::validation::first_problem, 2);
    let props = contact_properties();
    let c0: int = 1;
    assert(props[0int] == state_property());
    assert(props.len() == 0int + c0);
}

} // verus!
