//! Vibration sensor: whether vibration is detected, and optionally its
//! strength.
use vstd::prelude::*;

use crate::codec::{TypedValue, ValueView, encode_view};
use crate::dispatch::{
    NodeRef, NodeRefView, OutboundMessage, outbound, outbound_spec, publish_encoded,
};
use crate::format::{
    DataType, FormatView, NodeSchema, PropertyDescriptor, PropertyView, SchemaView, UNIT_LUX,
    ValueFormat,
    opt_text, property_spec,
};
use crate::format::included_iff;
use crate::numeric::{integer_text, render_integer};
use crate::SMARTHOME_TYPE_VIBRATION;
use crate::validation::schema_valid;

verus! {

pub const VIBRATION_NODE_DEFAULT_ID: &'static str = "vibration";

pub const VIBRATION_NODE_DEFAULT_NAME: &'static str = "Vibration sensor";

pub const VIBRATION_NODE_VIBRATION_PROP_ID: &'static str = "vibration";

pub const VIBRATION_NODE_VIBRATION_STRENGTH_PROP_ID: &'static str = "vibration-strength";

/// A vibration sensor's runtime state.
  #[derive(Debug)]
  pub struct VibrationNode {
      pub publisher: VibrationNodePublisher,
      pub vibration: bool,
      pub vibration_strength: Option<i64>,
  }
  
#[derive(Debug, PartialEq, Eq, Clone, Copy, Structural)]
  pub struct VibrationNodeConfig {
      pub vibration_strength: bool,
  }

  impl Default for VibrationNodeConfig {
      fn default() -> (r: VibrationNodeConfig)
          ensures
              r.vibration_strength,
      {
          VibrationNodeConfig { vibration_strength: true }
      }
  }

  pub open spec fn vibration_format() -> FormatView {
    FormatView::BooleanWords { false_word: "no-vibration"@, true_word: "vibration"@ }
}

fn vibration_words() -> (r: ValueFormat)
    ensures
        r@ == vibration_format(),
{
    ValueFormat::BooleanWords {
        false_word: "no-vibration".to_owned(),
        true_word: "vibration".to_owned(),
    }
}
pub open spec fn vibration_property() -> PropertyView {
    property_spec(VIBRATION_NODE_VIBRATION_PROP_ID@, "Vibration detected"@, DataType::Boolean)
        .with_format(vibration_format())
        .with_settable(false)
        .with_retained(true)
}

pub open spec fn strength_property() -> PropertyView {
    property_spec(
        VIBRATION_NODE_VIBRATION_STRENGTH_PROP_ID@,
        "Current lightlevel"@,
        DataType::Integer,
    )
        .with_unit(UNIT_LUX@)
        .with_settable(false)
        .with_retained(true)
}

/// The properties a vibration sensor declares, in order; each optional one only where the
/// configuration enables it.
pub open spec fn vibration_properties(config: VibrationNodeConfig) -> Seq<PropertyView> {
    let a = Seq::<PropertyView>::empty();
    let decl0 = a.push(vibration_property());
    let decl1 = if config.vibration_strength {
        decl0.push(strength_property())
    } else {
        decl0
    };
    decl1
}

/// The schema a vibration sensor declares.
pub open spec fn vibration_schema(config: VibrationNodeConfig) -> SchemaView {
    SchemaView {
        type_tag: SMARTHOME_TYPE_VIBRATION@,
        name: Some(VIBRATION_NODE_DEFAULT_NAME@),
        properties: vibration_properties(config),
    }
}

pub struct VibrationNodeBuilder {
    node_builder: NodeSchema,
}

impl View for VibrationNodeBuilder {
    type V = SchemaView;

    closed spec fn view(&self) -> SchemaView {
        self.node_builder@
    }
}

impl VibrationNodeBuilder {
    pub fn new(config: &VibrationNodeConfig) -> (r: VibrationNodeBuilder)
        ensures
            r@ == vibration_schema(*config),
    {
        let mut schema = NodeSchema::new(SMARTHOME_TYPE_VIBRATION, VIBRATION_NODE_DEFAULT_NAME);
        schema.add_property(
            PropertyDescriptor::new(
                VIBRATION_NODE_VIBRATION_PROP_ID,
                "Vibration detected",
                DataType::Boolean,
            )
                .format(vibration_words())
                .settable(false)
                .retained(true),
        );
        if config.vibration_strength {
            schema.add_property(
                PropertyDescriptor::new(
                    VIBRATION_NODE_VIBRATION_STRENGTH_PROP_ID,
                    "Current lightlevel",
                    DataType::Integer,
                )
                    .unit(UNIT_LUX)
                    .settable(false)
                    .retained(true),
            );
        }
        assert(schema@.properties =~= vibration_properties(*config));
        VibrationNodeBuilder { node_builder: schema }
    }

    /// Replaces the node's display name.
    pub fn name(self, name: Option<String>) -> (r: VibrationNodeBuilder)
        ensures
            r@ == self@.named(opt_text(name)),
    {
        let mut schema = self.node_builder;
        schema.set_name(name);
        VibrationNodeBuilder { node_builder: schema }
    }

    pub fn build(self) -> (r: NodeSchema)
        ensures
            r@ == self@,
    {
        self.node_builder
    }

    /// The schema, and a publisher for the node at the given address.
    pub fn build_with_publisher(self, node: NodeRef) -> (r: (NodeSchema, VibrationNodePublisher))
        ensures
            r.0@ == self@,
            r.1.node_ref() == node@,
    {
        (self.node_builder, VibrationNodePublisher::new(node))
    }
}

/// A vibration sensor instance: publishes its values.
#[derive(Debug)]
pub struct VibrationNodePublisher {
    node: NodeRef,
}

impl VibrationNodePublisher {
    pub closed spec fn node_ref(&self) -> NodeRefView {
        self.node@
    }

    pub fn new(node: NodeRef) -> (r: VibrationNodePublisher)
        ensures
            r.node_ref() == node@,
    {
        VibrationNodePublisher { node }
    }

    /// Publishes whether vibration is detected.
    pub fn vibration(&self, value: bool) -> (r: OutboundMessage)
        ensures
            r@ == outbound_spec(
                self.node_ref(),
                VIBRATION_NODE_VIBRATION_PROP_ID@,
                encode_view(ValueView::Bool(value), vibration_format()),
                true,
                false,
            ),
    {
        publish_encoded(
            &self.node,
            VIBRATION_NODE_VIBRATION_PROP_ID,
            &TypedValue::Bool(value),
            &vibration_words(),
            true,
            false,
        )
    }

    /// Publishes the vibration strength.
    pub fn vibration_strength(&self, value: i64) -> (r: OutboundMessage)
        ensures
            r@ == outbound_spec(
                self.node_ref(),
                VIBRATION_NODE_VIBRATION_STRENGTH_PROP_ID@,
                integer_text(value as int),
                true,
                false,
            ),
    {
        outbound(
            &self.node,
            VIBRATION_NODE_VIBRATION_STRENGTH_PROP_ID,
            render_integer(value),
            true,
            false,
        )
    }
}

proof fn lemma_vibration_ids_distinct()
    ensures
        VIBRATION_NODE_VIBRATION_PROP_ID@ != VIBRATION_NODE_VIBRATION_STRENGTH_PROP_ID@,
{
    reveal_strlit("vibration");
    reveal_strlit("vibration-strength");
    assert(
        VIBRATION_NODE_VIBRATION_PROP_ID@.len() != VIBRATION_NODE_VIBRATION_STRENGTH_PROP_ID@.len()
    );
}

/// Conditional inclusion: each optional property of a vibration sensor is in
/// the schema exactly once, with its declared format, when the configuration
/// enables it, and its id is absent when the configuration disables it.
pub proof fn lemma_vibration_optional_properties(config: VibrationNodeConfig)
    ensures
        included_iff(vibration_properties(config), strength_property(), config.vibration_strength),
{
    lemma_vibration_ids_distinct();
    let props = vibration_properties(config);
    let c0: int = 1;
    let at0: int = 0int;
    assert(props[at0] == vibration_property());
    let c1: int = if config.vibration_strength {
        1
    } else {
        0
    };
    let at1: int = 0int + c0;
    if config.vibration_strength {
        assert(props[at1] == strength_property());
    }
    assert(props.len() == 0int + c0 + c1);
    assert forall|j: int| 0 <= j < props.len() implies props[j].id == (if j == at0 {
        VIBRATION_NODE_VIBRATION_PROP_ID@
    } else {
        VIBRATION_NODE_VIBRATION_STRENGTH_PROP_ID@
    }) by {}
}

/// Every vibration sensor schema passes the schema checks: valid, distinct ids
/// and formats that suit their datatypes and admit a value.
pub proof fn lemma_vibration_schema_valid(config: VibrationNodeConfig)
    ensures
        schema_valid(vibration_schema(config)),
{
    lemma_vibration_ids_distinct();
    reveal_strlit("vibration");
    reveal_strlit("vibration-strength");
    reveal_strlit("no-vibration");
    reveal_strlit("vibration");
    reveal_with_fuel(crate::validation::id_chars, 19);
    reveal_with_fuel(crate::validation::first_problem, 3);
    let props = vibration_properties(config);
    let c0: int = 1;
    assert(props[0int] == vibration_property());
    let c1: int = if config.vibration_strength {
        1
    } else {
        0
    };
    if config.vibration_strength {
        assert(props[0int + c0] == strength_property());
    }
    assert(props.len() == 0int + c0 + c1);
}

} // verus!
