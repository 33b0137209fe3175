//! Motion sensor: whether motion is detected, and optionally the light
//! level.
use vstd::prelude::*;

use crate::codec::{TypedValue, ValueView, encode_view};
use crate::dispatch::{
    NodeRef, NodeRefView, OutboundMessage, outbound, outbound_spec, publish_encoded,
};
use crate::format::{
    DataType, FormatView, NodeSchema, PropertyDescriptor, PropertyView, SchemaView, UNIT_LUX,
    ValueFormat,
    opt_text, property_spec,
};
use crate::format::included_iff;
use crate::numeric::{integer_text, render_integer};
use crate::SMARTHOME_TYPE_MOTION;
use crate::validation::schema_valid;

verus! {

pub const MOTION_NODE_DEFAULT_ID: &'static str = "motion";

pub const MOTION_NODE_DEFAULT_NAME: &'static str = "Motion sensor";

pub const MOTION_NODE_MOTION_PROP_ID: &'static str = "motion";

pub const MOTION_NODE_LUX_PROP_ID: &'static str = "lux";

/// A motion sensor's runtime state.
  #[derive(Debug)]
  pub struct MotionNode {
      pub publisher: MotionNodePublisher,
      pub motion: bool,
      pub lux: Option<i64>,
  }
  
#[derive(Debug, PartialEq, Eq, Clone, Copy, Structural)]
  pub struct MotionNodeConfig {
      pub lux: bool,
  }

  impl Default for MotionNodeConfig {
      fn default() -> (r: MotionNodeConfig)
          ensures
              !r.lux,
      {
          MotionNodeConfig { lux: false }
      }
  }

  pub open spec fn motion_format() -> FormatView {
    FormatView::BooleanWords { false_word: "no-motion"@, true_word: "motion"@ }
}

fn motion_words() -> (r: ValueFormat)
    ensures
        r@ == motion_format(),
{
    ValueFormat::BooleanWords { false_word: "no-motion".to_owned(), true_word: "motion".to_owned() }
}
pub open spec fn motion_property() -> PropertyView {
    property_spec(MOTION_NODE_MOTION_PROP_ID@, "Motion detected"@, DataType::Boolean)
        .with_format(motion_format())
        .with_settable(false)
        .with_retained(true)
}

pub open spec fn lux_property() -> PropertyView {
    property_spec(MOTION_NODE_LUX_PROP_ID@, "Current lightlevel"@, DataType::Integer)
        .with_unit(UNIT_LUX@)
        .with_settable(false)
        .with_retained(true)
}

/// The properties a motion sensor declares, in order; each optional one only where the
/// configuration enables it.
pub open spec fn motion_properties(config: MotionNodeConfig) -> Seq<PropertyView> {
    let a = Seq::<PropertyView>::empty();
    let decl0 = a.push(motion_property());
    let decl1 = if config.lux {
        decl0.push(lux_property())
    } else {
        decl0
    };
    decl1
}

/// The schema a motion sensor declares.
pub open spec fn motion_schema(config: MotionNodeConfig) -> SchemaView {
    SchemaView {
        type_tag: SMARTHOME_TYPE_MOTION@,
        name: Some(MOTION_NODE_DEFAULT_NAME@),
        properties: motion_properties(config),
    }
}

pub struct MotionNodeBuilder {
    node_builder: NodeSchema,
}

impl View for MotionNodeBuilder {
    type V = SchemaView;

    closed spec fn view(&self) -> SchemaView {
        self.node_builder@
    }
}

impl MotionNodeBuilder {
    pub fn new(config: &MotionNodeConfig) -> (r: MotionNodeBuilder)
        ensures
            r@ == motion_schema(*config),
    {
        let mut schema = NodeSchema::new(SMARTHOME_TYPE_MOTION, MOTION_NODE_DEFAULT_NAME);
        schema.add_property(
            PropertyDescriptor::new(
                MOTION_NODE_MOTION_PROP_ID,
                "Motion detected",
                DataType::Boolean,
            )
                .format(motion_words())
                .settable(false)
                .retained(true),
        );
        if config.lux {
            schema.add_property(
                PropertyDescriptor::new(
                    MOTION_NODE_LUX_PROP_ID,
                    "Current lightlevel",
                    DataType::Integer,
                )
                    .unit(UNIT_LUX)
                    .settable(false)
                    .retained(true),
            );
        }
        assert(schema@.properties =~= motion_properties(*config));
        MotionNodeBuilder { node_builder: schema }
    }

    /// Replaces the node's display name.
    pub fn name(self, name: Option<String>) -> (r: MotionNodeBuilder)
        ensures
            r@ == self@.named(opt_text(name)),
    {
        let mut schema = self.node_builder;
        schema.set_name(name);
        MotionNodeBuilder { node_builder: schema }
    }

    pub fn build(self) -> (r: NodeSchema)
        ensures
            r@ == self@,
    {
        self.node_builder
    }

    /// The schema, and a publisher for the node at the given address.
    pub fn build_with_publisher(self, node: NodeRef) -> (r: (NodeSchema, MotionNodePublisher))
        ensures
            r.0@ == self@,
            r.1.node_ref() == node@,
    {
        (self.node_builder, MotionNodePublisher::new(node))
    }
}

/// A motion sensor instance: publishes its values.
#[derive(Debug)]
pub struct MotionNodePublisher {
    node: NodeRef,
}

impl MotionNodePublisher {
    pub closed spec fn node_ref(&self) -> NodeRefView {
        self.node@
    }

    pub fn new(node: NodeRef) -> (r: MotionNodePublisher)
        ensures
            r.node_ref() == node@,
    {
        MotionNodePublisher { node }
    }

    /// Publishes whether motion is detected.
    pub fn motion(&self, value: bool) -> (r: OutboundMessage)
        ensures
            r@ == outbound_spec(
                self.node_ref(),
                MOTION_NODE_MOTION_PROP_ID@,
                encode_view(ValueView::Bool(value), motion_format()),
                true,
                false,
            ),
    {
        publish_encoded(
            &self.node,
            MOTION_NODE_MOTION_PROP_ID,
            &TypedValue::Bool(value),
            &motion_words(),
            true,
            false,
        )
    }

    /// Publishes the light level.
    pub fn lux(&self, value: i64) -> (r: OutboundMessage)
        ensures
            r@ == outbound_spec(
                self.node_ref(),
                MOTION_NODE_LUX_PROP_ID@,
                integer_text(value as int),
                true,
                false,
            ),
    {
        outbound(&self.node, MOTION_NODE_LUX_PROP_ID, render_integer(value), true, false)
    }
}

proof fn lemma_motion_ids_distinct()
    ensures
        MOTION_NODE_MOTION_PROP_ID@ != MOTION_NODE_LUX_PROP_ID@,
{
    reveal_strlit("motion");
    reveal_strlit("lux");
    assert(MOTION_NODE_MOTION_PROP_ID@.len() != MOTION_NODE_LUX_PROP_ID@.len());
}

/// Conditional inclusion: each optional property of a motion sensor is in
/// the schema exactly once, with its declared format, when the configuration
/// enables it, and its id is absent when the configuration disables it.
pub proof fn lemma_motion_optional_properties(config: MotionNodeConfig)
    ensures
        included_iff(motion_properties(config), lux_property(), config.lux),
{
    lemma_motion_ids_distinct();
    let props = motion_properties(config);
    let c0: int = 1;
    let at0: int = 0int;
    assert(props[at0] == motion_property());
    let c1: int = if config.lux {
        1
    } else {
        0
    };
    let at1: int = 0int + c0;
    if config.lux {
        assert(props[at1] == lux_property());
    }
    assert(props.len() == 0int + c0 + c1);
    assert forall|j: int| 0 <= j < props.len() implies props[j].id == (if j == at0 {
        MOTION_NODE_MOTION_PROP_ID@
    } else {
        MOTION_NODE_LUX_PROP_ID@
    }) by {}
}

/// Every motion sensor schema passes the schema checks: valid, distinct ids
/// and formats that suit their datatypes and admit a value.
pub proof fn lemma_motion_schema_valid(config: MotionNodeConfig)
    ensures
        schema_valid(motion_schema(config)),
{
    lemma_motion_ids_distinct();
    reveal_strlit("motion");
    reveal_strlit("lux");
    reveal_strlit("no-motion");
    reveal_strlit("motion");
    reveal_with_fuel(crate::validation::id_chars, 7);
    reveal_with_fuel(crate::validation::first_problem, 3);
    let props = motion_properties(config);
    let c0: int = 1;
    assert(props[0int] == motion_property());
    let c1: int = if config.lux {
        1
    } else {
        0
    };
    if config.lux {
        assert(props[0int + c0] == lux_property());
    }
    assert(props.len() == 0int + c0 + c1);
}

} // verus!
