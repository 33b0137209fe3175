//! Orientation sensor: rotation about three axes and a tilt angle, in
//! degrees.
use vstd::prelude::*;

use crate::dispatch::{NodeRef, NodeRefView, OutboundMessage, outbound, outbound_spec};
use crate::format::{
      DataType, FormatView, NodeSchema, PropertyDescriptor, PropertyView, SchemaView, UNIT_DEGREE,
      ValueFormat,
      opt_text, property_spec,
  };
use crate::numeric::{integer_text, render_integer};
use crate::SMARTHOME_TYPE_ORIENTATION;
use crate::validation::schema_valid;

verus! {

pub const ORIENTATION_NODE_DEFAULT_ID: &'static str = "orientation";

pub const ORIENTATION_NODE_DEFAULT_NAME: &'static str = "Orientation sensor";

pub const ORIENTATION_NODE_ORIENT_X_PROP_ID: &'static str = "orientation-x";

pub const ORIENTATION_NODE_ORIENT_Y_PROP_ID: &'static str = "orientation-y";

pub const ORIENTATION_NODE_ORIENT_Z_PROP_ID: &'static str = "orientation-z";

pub const ORIENTATION_NODE_TILT_PROP_ID: &'static str = "tilt";

/// An orientation sensor's runtime state.
  #[derive(Debug)]
  pub struct OrientationNode {
      pub publisher: OrientationNodePublisher,
      pub orientation_x: i64,
      pub orientation_y: i64,
      pub orientation_z: i64,
      pub tilt: i64,
  }
  
pub open spec fn x_property() -> PropertyView {
    property_spec(ORIENTATION_NODE_ORIENT_X_PROP_ID@, "Rotation X-Axis"@, DataType::Integer)
        .with_unit(UNIT_DEGREE@)
        .with_settable(false)
        .with_retained(true)
}

pub open spec fn y_property() -> PropertyView {
    property_spec(ORIENTATION_NODE_ORIENT_Y_PROP_ID@, "Rotation Y-Axist"@, DataType::Integer)
        .with_unit(UNIT_DEGREE@)
        .with_settable(false)
        .with_retained(true)
}

pub open spec fn z_property() -> PropertyView {
    property_spec(ORIENTATION_NODE_ORIENT_Z_PROP_ID@, "Rotation Z-Axist"@, DataType::Integer)
        .with_unit(UNIT_DEGREE@)
        .with_settable(false)
        .with_retained(true)
}

pub open spec fn tilt_property() -> PropertyView {
    property_spec(ORIENTATION_NODE_TILT_PROP_ID@, "Tilt angle"@, DataType::Integer)
        .with_unit(UNIT_DEGREE@)
        .with_settable(false)
        .with_retained(true)
}

/// The properties a orientation sensor declares, in order.
pub open spec fn orientation_properties() -> Seq<PropertyView> {
    let a = Seq::<PropertyView>::empty();
    let decl0 = a.push(x_property());
    let decl1 = decl0.push(y_property());
    let decl2 = decl1.push(z_property());
    let decl3 = decl2.push(tilt_property());
    decl3
}

/// The schema a orientation sensor declares.
pub open spec fn orientation_schema() -> SchemaView {
    SchemaView {
        type_tag: SMARTHOME_TYPE_ORIENTATION@,
        name: Some(ORIENTATION_NODE_DEFAULT_NAME@),
        properties: orientation_properties(),
    }
}

pub struct OrientationNodeBuilder {
    node_builder: NodeSchema,
}

impl View for OrientationNodeBuilder {
    type V = SchemaView;

    closed spec fn view(&self) -> SchemaView {
        self.node_builder@
    }
}

impl Default for OrientationNodeBuilder {
    fn default() -> (r: OrientationNodeBuilder)
        ensures
            r@ == orientation_schema(),
    {
        OrientationNodeBuilder::new()
    }
}

impl OrientationNodeBuilder {
    pub fn new() -> (r: OrientationNodeBuilder)
        ensures
            r@ == orientation_schema(),
    {
        let mut schema = NodeSchema::new(SMARTHOME_TYPE_ORIENTATION, ORIENTATION_NODE_DEFAULT_NAME);
        schema.add_property(
            PropertyDescriptor::new(
                ORIENTATION_NODE_ORIENT_X_PROP_ID,
                "Rotation X-Axis",
                DataType::Integer,
            )
                .unit(UNIT_DEGREE)
                .settable(false)
                .retained(true),
        );
        schema.add_property(
            PropertyDescriptor::new(
                ORIENTATION_NODE_ORIENT_Y_PROP_ID,
                "Rotation Y-Axist",
                DataType::Integer,
            )
                .unit(UNIT_DEGREE)
                .settable(false)
                .retained(true),
        );
        schema.add_property(
            PropertyDescriptor::new(
                ORIENTATION_NODE_ORIENT_Z_PROP_ID,
                "Rotation Z-Axist",
                DataType::Integer,
            )
                .unit(UNIT_DEGREE)
                .settable(false)
                .retained(true),
        );
        schema.add_property(
            PropertyDescriptor::new(ORIENTATION_NODE_TILT_PROP_ID, "Tilt angle", DataType::Integer)
                .unit(UNIT_DEGREE)
                .settable(false)
                .retained(true),
        );
        assert(schema@.properties =~= orientation_properties());
        OrientationNodeBuilder { node_builder: schema }
    }

    /// Replaces the node's display name.
    pub fn name(self, name: Option<String>) -> (r: OrientationNodeBuilder)
        ensures
            r@ == self@.named(opt_text(name)),
    {
        let mut schema = self.node_builder;
        schema.set_name(name);
        OrientationNodeBuilder { node_builder: schema }
    }

    pub fn build(self) -> (r: NodeSchema)
        ensures
            r@ == self@,
    {
        self.node_builder
    }

    /// The schema, and a publisher for the node at the given address.
    pub fn build_with_publisher(self, node: NodeRef) -> (r: (NodeSchema, OrientationNodePublisher))
        ensures
            r.0@ == self@,
            r.1.node_ref() == node@,
    {
        (self.node_builder, OrientationNodePublisher::new(node))
    }
}

/// A orientation sensor instance: publishes its values.
#[derive(Debug)]
pub struct OrientationNodePublisher {
    node: NodeRef,
}

impl OrientationNodePublisher {
    pub closed spec fn node_ref(&self) -> NodeRefView {
        self.node@
    }

    pub fn new(node: NodeRef) -> (r: OrientationNodePublisher)
        ensures
            r.node_ref() == node@,
    {
        OrientationNodePublisher { node }
    }

    /// Publishes the rotation about the x axis.
    pub fn orientation_x(&self, value: i64) -> (r: OutboundMessage)
        ensures
            r@ == outbound_spec(
                self.node_ref(),
                ORIENTATION_NODE_ORIENT_X_PROP_ID@,
                integer_text(value as int),
                true,
                false,
            ),
    {
        outbound(&self.node, ORIENTATION_NODE_ORIENT_X_PROP_ID, render_integer(value), true, false)
    }

    /// Publishes the rotation about the y axis.
    pub fn orientation_y(&self, value: i64) -> (r: OutboundMessage)
        ensures
            r@ == outbound_spec(
                self.node_ref(),
                ORIENTATION_NODE_ORIENT_Y_PROP_ID@,
                integer_text(value as int),
                true,
                false,
            ),
    {
        outbound(&self.node, ORIENTATION_NODE_ORIENT_Y_PROP_ID, render_integer(value), true, false)
    }

    /// Publishes the rotation about the z axis.
    pub fn orientation_z(&self, value: i64) -> (r: OutboundMessage)
        ensures
            r@ == outbound_spec(
                self.node_ref(),
                ORIENTATION_NODE_ORIENT_Z_PROP_ID@,
                integer_text(value as int),
                true,
                false,
            ),
    {
        outbound(&self.node, ORIENTATION_NODE_ORIENT_Z_PROP_ID, render_integer(value), true, false)
    }

    /// Publishes the tilt angle.
    pub fn tilt(&self, value: i64) -> (r: OutboundMessage)
        ensures
            r@ == outbound_spec(
                self.node_ref(),
                ORIENTATION_NODE_TILT_PROP_ID@,
                integer_text(value as int),
                true,
                false,
            ),
    {
        outbound(&self.node, ORIENTATION_NODE_TILT_PROP_ID, render_integer(value), true, false)
    }
}

proof fn lemma_orientation_ids_distinct()
    ensures
        ORIENTATION_NODE_ORIENT_X_PROP_ID@ != ORIENTATION_NODE_ORIENT_Y_PROP_ID@,
        ORIENTATION_NODE_ORIENT_X_PROP_ID@ != ORIENTATION_NODE_ORIENT_Z_PROP_ID@,
        ORIENTATION_NODE_ORIENT_X_PROP_ID@ != ORIENTATION_NODE_TILT_PROP_ID@,
        ORIENTATION_NODE_ORIENT_Y_PROP_ID@ != ORIENTATION_NODE_ORIENT_Z_PROP_ID@,
        ORIENTATION_NODE_ORIENT_Y_PROP_ID@ != ORIENTATION_NODE_TILT_PROP_ID@,
        ORIENTATION_NODE_ORIENT_Z_PROP_ID@ != ORIENTATION_NODE_TILT_PROP_ID@,
{
    reveal_strlit("orientation-x");
    reveal_strlit("orientation-y");
    reveal_strlit("orientation-z");
    reveal_strlit("tilt");
    assert(ORIENTATION_NODE_ORIENT_X_PROP_ID@[12] != ORIENTATION_NODE_ORIENT_Y_PROP_ID@[12]);
    assert(ORIENTATION_NODE_ORIENT_X_PROP_ID@[12] != ORIENTATION_NODE_ORIENT_Z_PROP_ID@[12]);
    assert(ORIENTATION_NODE_ORIENT_X_PROP_ID@.len() != ORIENTATION_NODE_TILT_PROP_ID@.len());
    assert(ORIENTATION_NODE_ORIENT_Y_PROP_ID@[12] != ORIENTATION_NODE_ORIENT_Z_PROP_ID@[12]);
    assert(ORIENTATION_NODE_ORIENT_Y_PROP_ID@.len() != ORIENTATION_NODE_TILT_PROP_ID@.len());
    assert(ORIENTATION_NODE_ORIENT_Z_PROP_ID@.len() != ORIENTATION_NODE_TILT_PROP_ID@.len());
}

/// Every orientation sensor schema passes the schema checks: valid, distinct ids
/// and formats that suit their datatypes and admit a value.
pub proof fn lemma_orientation_schema_valid()
    ensures
        schema_valid(orientation_schema()),
{
    lemma_orientation_ids_distinct();
    reveal_strlit("orientation-x");
    reveal_strlit("orientation-y");
    reveal_strlit("orientation-z");
    reveal_strlit("tilt");
    reveal_with_fuel(crate::validation::id_chars, 14);
    reveal_with_fuel(crate::validation::first_problem, 5);
    let props = orientation_properties();
    let c0: int = 1;
    assert(props[0int] == x_property());
    let c1: int = 1;
    assert(props[0int + c0] == y_property());
    let c2: int = 1;
    assert(props[0int + c0 + c1] == z_property());
    let c3: int = 1;
    assert(props[0int + c0 + c1 + c2] == tilt_property());
    assert(props.len() == 0int + c0 + c1 + c2 + c3);
}

} // verus!
