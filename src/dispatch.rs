//! Addresses of nodes and properties, inbound set commands and outbound
//! messages, and the generic dispatch step: an inbound command is matched
//! against one node's identity and schema and decoded against the property's
//! value format.
use vstd::prelude::*;

use crate::codec::{TypedValue, ValueView, decode, decode_view, encode, encode_view};
use crate::format::{NodeSchema, SchemaView, ValueFormat};

verus! {

/// The address of a node: protocol domain, device id and node id.
#[derive(Debug, PartialEq, Eq, Clone)]
pub struct NodeRef {
    pub domain: String,
    pub device_id: String,
    pub node_id: String,
}

pub struct NodeRefView {
    pub domain: Seq<char>,
    pub device_id: Seq<char>,
    pub node_id: Seq<char>,
}

impl View for NodeRef {
    type V = NodeRefView;

    open spec fn view(&self) -> NodeRefView {
        NodeRefView { domain: self.domain@, device_id: self.device_id@, node_id: self.node_id@ }
    }
}

impl NodeRef {
    pub fn new(domain: &str, device_id: &str, node_id: &str) -> (r: NodeRef)
        ensures
            r@ == (NodeRefView { domain: domain@, device_id: device_id@, node_id: node_id@ }),
    {
        NodeRef {
            domain: domain.to_owned(),
            device_id: device_id.to_owned(),
            node_id: node_id.to_owned(),
        }
    }

    pub fn node_id(&self) -> (r: &String)
        ensures
            r@ == self@.node_id,
    {
        &self.node_id
    }

    /// Whether two addresses name the same node.
    pub fn same_node(&self, other: &NodeRef) -> (r: bool)
        ensures
            r == (self@ == other@),
    {
        self.domain == other.domain && self.device_id == other.device_id && self.node_id
            == other.node_id
    }

    pub fn duplicate(&self) -> (r: NodeRef)
        ensures
            r@ == self@,
    {
        NodeRef {
            domain: self.domain.clone(),
            device_id: self.device_id.clone(),
            node_id: self.node_id.clone(),
        }
    }
}

/// The address of a property: its node and its id.
#[derive(Debug, PartialEq, Eq, Clone)]
pub struct PropertyRef {
    pub node: NodeRef,
    pub prop_id: String,
}

pub struct PropertyRefView {
    pub node: NodeRefView,
    pub prop_id: Seq<char>,
}

impl View for PropertyRef {
    type V = PropertyRefView;

    open spec fn view(&self) -> PropertyRefView {
        PropertyRefView { node: self.node@, prop_id: self.prop_id@ }
    }
}

impl PropertyRef {
    pub fn new(node: NodeRef, prop_id: &str) -> (r: PropertyRef)
        ensures
            r@ == (PropertyRefView { node: node@, prop_id: prop_id@ }),
    {
        PropertyRef { node, prop_id: prop_id.to_owned() }
    }

    /// Whether this address names the given property of the given node.
    pub fn match_with_node(&self, node: &NodeRef, prop_id: &String) -> (r: bool)
        ensures
            r == (self@.node == node@ && self@.prop_id == prop_id@),
    {
        self.node.same_node(node) && self.prop_id == *prop_id
    }
}

/// An inbound command: set the addressed property to the payload's value.
#[derive(Debug, PartialEq, Eq, Clone)]
pub struct PropertySet {
    pub property: PropertyRef,
    pub set_value: String,
}

/// An outbound message: a value, or a target value, for a property, and
/// whether the transport should retain it.
#[derive(Debug, PartialEq, Eq, Clone)]
pub struct OutboundMessage {
    pub property: PropertyRef,
    pub payload: String,
    pub retained: bool,
    pub target: bool,
}

pub struct OutboundView {
    pub property: PropertyRefView,
    pub payload: Seq<char>,
    pub retained: bool,
    pub target: bool,
}

impl View for OutboundMessage {
    type V = OutboundView;

    open spec fn view(&self) -> OutboundView {
        OutboundView {
            property: self.property@,
            payload: self.payload@,
            retained: self.retained,
            target: self.target,
        }
    }
}

/// The outbound message a publish operation makes.
pub open spec fn outbound_spec(
    node: NodeRefView,
    prop_id: Seq<char>,
    payload: Seq<char>,
    retained: bool,
    target: bool,
) -> OutboundView {
    OutboundView {
        property: PropertyRefView { node, prop_id },
        payload,
        retained,
        target,
    }
}

/// Packages a payload for a property of a node.
pub fn outbound(node: &NodeRef, prop_id: &str, payload: String, retained: bool, target: bool) -> (r:
    OutboundMessage)
    ensures
        r@ == outbound_spec(node@, prop_id@, payload@, retained, target),
{
    OutboundMessage {
        property: PropertyRef { node: node.duplicate(), prop_id: prop_id.to_owned() },
        payload,
        retained,
        target,
    }
}

/// Encodes a value under a format and packages it for a property.
pub fn publish_encoded(
    node: &NodeRef,
    prop_id: &str,
    value: &TypedValue,
    format: &ValueFormat,
    retained: bool,
    target: bool,
) -> (r: OutboundMessage)
    ensures
        r@ == outbound_spec(node@, prop_id@, encode_view(value@, format@), retained, target),
{
    outbound(node, prop_id, encode(value, format), retained, target)
}

/// Dispatch against one node: `None` unless the command addresses this node
/// and a property of its schema, and the payload decodes against that
/// property; else the property's id and the decoded value.
pub open spec fn dispatch_view(
    node: NodeRefView,
    schema: SchemaView,
    property: PropertyRefView,
    payload: Seq<char>,
) -> Option<(Seq<char>, ValueView)> {
    if property.node != node {
        None
    } else {
        match schema.position_of(property.prop_id) {
            None => None,
            Some(i) => match decode_view(payload, schema.properties[i]) {
                Ok(v) => Some((property.prop_id, v)),
                Err(_) => None,
            },
        }
    }
}

/// The decoded value of a dispatch result.
pub open spec fn dispatched_value(r: Option<TypedValue>) -> Option<ValueView> {
    match r {
        Some(v) => Some(v@),
        None => None,
    }
}

pub open spec fn dispatch_value_view(
    node: NodeRefView,
    schema: SchemaView,
    property: PropertyRefView,
    payload: Seq<char>,
) -> Option<ValueView> {
    match dispatch_view(node, schema, property, payload) {
        Some(p) => Some(p.1),
        None => None,
    }
}

/// Matches an inbound command against a node and decodes its payload.
pub fn dispatch(node: &NodeRef, schema: &NodeSchema, property: &PropertyRef, payload: &str) -> (r:
    Option<TypedValue>)
    ensures
        dispatched_value(r) == dispatch_value_view(node@, schema@, property@, payload@),
{
    if !property.node.same_node(node) {
        return None;
    }
    match schema.find(&property.prop_id) {
        None => None,
        Some(i) => {
            let prop = &schema.properties[i];
            assert(schema@.properties[i as int] == prop@);
            match decode(payload, prop) {
                Ok(v) => Some(v),
                Err(_) => None,
            }
        },
    }
}

} // verus!
