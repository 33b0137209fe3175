//! Maintenance information: optional low-battery flag, battery level, time
//! of the last update and reachability.
use vstd::prelude::*;

use crate::codec::{TypedValue, ValueView, encode_view};
use crate::dispatch::{
    NodeRef, NodeRefView, OutboundMessage, outbound, outbound_spec, publish_encoded,
};
use crate::format::{
    DataType, FormatView, NodeSchema, PropertyDescriptor, PropertyView, SchemaView, ValueFormat,
    opt_text, property_spec,
};
use crate::format::included_iff;
use crate::numeric::{integer_text, render_integer};
use crate::SMARTHOME_TYPE_MAINTENANCE;
use crate::validation::schema_valid;

verus! {

pub const MAINTENANCE_NODE_DEFAULT_ID: &'static str = "maintenance";

pub const MAINTENANCE_NODE_DEFAULT_NAME: &'static str = "Maintenance information";

pub const MAINTENANCE_NODE_LOW_BATTERY_PROP_ID: &'static str = "low-battery";

pub const MAINTENANCE_NODE_BATTERY_LEVEL_PROP_ID: &'static str = "battery-level";

pub const MAINTENANCE_NODE_LAST_UPDATE_PROP_ID: &'static str = "last-update";

pub const MAINTENANCE_NODE_REACHABLE_PROP_ID: &'static str = "reachable";

/// A maintenance node's runtime state; the last update is in milliseconds
/// since the Unix epoch.
#[derive(Debug)]
pub struct MaintenanceNode {
    pub publisher: MaintenanceNodePublisher,
    pub battery_level: Option<i64>,
    pub low_battery: Option<bool>,
    pub last_update: Option<i64>,
    pub reachable: Option<bool>,
}

#[derive(Debug, PartialEq, Eq, Clone, Copy, Structural)]
pub struct MaintenanceNodeConfig {
    pub low_battery: bool,
    pub battery_level: bool,
    pub reachable: bool,
    pub last_update: bool,
}

impl Default for MaintenanceNodeConfig {
    fn default() -> (r: MaintenanceNodeConfig)
        ensures
            !r.battery_level && r.low_battery && r.reachable && r.last_update,
    {
        MaintenanceNodeConfig {
            battery_level: false,
            low_battery: true,
            reachable: true,
            last_update: true,
        }
    }
}

/// The RFC 3339 text, in UTC with milliseconds and a `Z` suffix, of an
/// instant given in milliseconds since the Unix epoch.
pub uninterp spec fn rfc3339_millis(timestamp_millis: int) -> Seq<char>;

/// The instants, in milliseconds since the Unix epoch, that every calendar
/// date chrono represents covers (its years run to about 262,000 either side
/// of the era; these bounds stay within about 253,000 years of 1970).
pub open spec fn within_calendar(timestamp_millis: int) -> bool {
    -8_000_000_000_000_000 <= timestamp_millis <= 8_000_000_000_000_000
}

/// Relies on chrono's `DateTime::<Utc>::to_rfc3339_opts(SecondsFormat::Millis,
/// true)`, whose text depends on the instant alone; the instant is built with
/// `DateTime::from_timestamp_millis`, which gives `None` only for instants
/// outside its calendar range (years beyond about 262,000 either side of the
/// era).
#[verifier::external_body]
fn utc_millis_text(timestamp_millis: i64) -> (r: Option<String>)
    ensures
        within_calendar(timestamp_millis as int) ==> r is Some,
        r matches Some(s) ==> s@ == rfc3339_millis(timestamp_millis as int),
{
    match chrono::DateTime::from_timestamp_millis(timestamp_millis) {
        Some(instant) => Some(instant.to_rfc3339_opts(chrono::SecondsFormat::Millis, true)),
        None => None,
    }
}

pub open spec fn low_battery_property() -> PropertyView {
    property_spec(
        MAINTENANCE_NODE_LOW_BATTERY_PROP_ID@,
        "Low battery indicator"@,
        DataType::Boolean,
    )
        .with_settable(false)
        .with_retained(true)
}

pub open spec fn battery_level_property() -> PropertyView {
    property_spec(MAINTENANCE_NODE_BATTERY_LEVEL_PROP_ID@, "Battery level"@, DataType::Integer)
        .with_settable(false)
        .with_retained(true)
}

pub open spec fn last_update_property() -> PropertyView {
    property_spec(MAINTENANCE_NODE_LAST_UPDATE_PROP_ID@, "Last update"@, DataType::Datetime)
        .with_settable(false)
        .with_retained(true)
}

pub open spec fn reachable_property() -> PropertyView {
    property_spec(MAINTENANCE_NODE_REACHABLE_PROP_ID@, "Reachable"@, DataType::Boolean)
        .with_settable(false)
        .with_retained(true)
}

/// The properties a maintenance node declares, in order; each optional one only where the
/// configuration enables it.
pub open spec fn maintenance_properties(config: MaintenanceNodeConfig) -> Seq<PropertyView> {
    let a = Seq::<PropertyView>::empty();
    let decl0 = if config.low_battery {
        a.push(low_battery_property())
    } else {
        a
    };
    let decl1 = if config.battery_level {
        decl0.push(battery_level_property())
    } else {
        decl0
    };
    let decl2 = if config.last_update {
        decl1.push(last_update_property())
    } else {
        decl1
    };
    let decl3 = if config.reachable {
        decl2.push(reachable_property())
    } else {
        decl2
    };
    decl3
}

/// The schema a maintenance node declares.
pub open spec fn maintenance_schema(config: MaintenanceNodeConfig) -> SchemaView {
    SchemaView {
        type_tag: SMARTHOME_TYPE_MAINTENANCE@,
        name: Some(MAINTENANCE_NODE_DEFAULT_NAME@),
        properties: maintenance_properties(config),
    }
}

pub struct MaintenanceNodeBuilder {
    node_builder: NodeSchema,
    config: MaintenanceNodeConfig,
}

impl View for MaintenanceNodeBuilder {
    type V = SchemaView;

    closed spec fn view(&self) -> SchemaView {
        self.node_builder@
    }
}

impl MaintenanceNodeBuilder {
    pub closed spec fn config(&self) -> MaintenanceNodeConfig {
        self.config
    }

    pub fn new(config: &MaintenanceNodeConfig) -> (r: MaintenanceNodeBuilder)
        ensures
            r@ == maintenance_schema(*config),
            r.config() == *config,
    {
        let mut schema = NodeSchema::new(SMARTHOME_TYPE_MAINTENANCE, MAINTENANCE_NODE_DEFAULT_NAME);
        if config.low_battery {
            schema.add_property(
                PropertyDescriptor::new(
                    MAINTENANCE_NODE_LOW_BATTERY_PROP_ID,
                    "Low battery indicator",
                    DataType::Boolean,
                )
                    .settable(false)
                    .retained(true),
            );
        }
        if config.battery_level {
            schema.add_property(
                PropertyDescriptor::new(
                    MAINTENANCE_NODE_BATTERY_LEVEL_PROP_ID,
                    "Battery level",
                    DataType::Integer,
                )
                    .settable(false)
                    .retained(true),
            );
        }
        if config.last_update {
            schema.add_property(
                PropertyDescriptor::new(
                    MAINTENANCE_NODE_LAST_UPDATE_PROP_ID,
                    "Last update",
                    DataType::Datetime,
                )
                    .settable(false)
                    .retained(true),
            );
        }
        if config.reachable {
            schema.add_property(
                PropertyDescriptor::new(
                    MAINTENANCE_NODE_REACHABLE_PROP_ID,
                    "Reachable",
                    DataType::Boolean,
                )
                    .settable(false)
                    .retained(true),
            );
        }
        assert(schema@.properties =~= maintenance_properties(*config));
        MaintenanceNodeBuilder { node_builder: schema, config: *config }
    }

    /// Replaces the node's display name.
    pub fn name(self, name: Option<String>) -> (r: MaintenanceNodeBuilder)
        ensures
            r@ == self@.named(opt_text(name)),
            r.config() == self.config(),
    {
        let mut schema = self.node_builder;
        schema.set_name(name);
        MaintenanceNodeBuilder { node_builder: schema, config: self.config }
    }

    pub fn build(self) -> (r: NodeSchema)
        ensures
            r@ == self@,
    {
        self.node_builder
    }

    /// The schema, and a publisher for the node at the given address.
    pub fn build_with_publisher(self, node: NodeRef) -> (r: (NodeSchema, MaintenanceNodePublisher))
        ensures
            r.0@ == self@,
            r.1.node_ref() == node@,
            r.1.config() == self.config(),
    {
        (self.node_builder, MaintenanceNodePublisher::new(node, self.config))
    }
}

/// A maintenance node instance: publishes its values.
#[derive(Debug)]
pub struct MaintenanceNodePublisher {
    node: NodeRef,
    config: MaintenanceNodeConfig,
}

impl MaintenanceNodePublisher {
    pub closed spec fn node_ref(&self) -> NodeRefView {
        self.node@
    }

    pub closed spec fn config(&self) -> MaintenanceNodeConfig {
        self.config
    }

    pub fn new(node: NodeRef, config: MaintenanceNodeConfig) -> (r: MaintenanceNodePublisher)
        ensures
            r.node_ref() == node@,
            r.config() == config,
    {
        MaintenanceNodePublisher { node, config }
    }

    /// Publishes the low-battery flag; `None` where the configuration leaves the property out.
    pub fn low_battery(&self, value: bool) -> (r: Option<OutboundMessage>)
        ensures
            match r {
                Some(msg) => self.config().low_battery && msg@ == outbound_spec(
                        self.node_ref(),
                        MAINTENANCE_NODE_LOW_BATTERY_PROP_ID@,
                        encode_view(ValueView::Bool(value), FormatView::Unconstrained),
                        true,
                        false,
                    ),
                None => !self.config().low_battery,
            },
    {
        if !self.config.low_battery {
            return None;
        }
        Some(publish_encoded(
                 &self.node,
                 MAINTENANCE_NODE_LOW_BATTERY_PROP_ID,
                 &TypedValue::Bool(value),
                 &ValueFormat::Unconstrained,
                 true,
                 false,
             ))
    }

    /// Publishes the battery level; `None` where the configuration leaves the property out.
    pub fn battery_level(&self, value: i32) -> (r: Option<OutboundMessage>)
        ensures
            match r {
                Some(msg) => self.config().battery_level && msg@ == outbound_spec(
                        self.node_ref(),
                        MAINTENANCE_NODE_BATTERY_LEVEL_PROP_ID@,
                        integer_text(value as int),
                        true,
                        false,
                    ),
                None => !self.config().battery_level,
            },
    {
        if !self.config.battery_level {
            return None;
        }
        Some(outbound(
                 &self.node,
                 MAINTENANCE_NODE_BATTERY_LEVEL_PROP_ID,
                 render_integer(value as i64),
                 true,
                 false,
             ))
    }

    /// Publishes whether the device is reachable; `None` where the configuration leaves the
    /// property out.
    pub fn reachable(&self, value: bool) -> (r: Option<OutboundMessage>)
        ensures
            match r {
                Some(msg) => self.config().reachable && msg@ == outbound_spec(
                        self.node_ref(),
                        MAINTENANCE_NODE_REACHABLE_PROP_ID@,
                        encode_view(ValueView::Bool(value), FormatView::Unconstrained),
                        true,
                        false,
                    ),
                None => !self.config().reachable,
            },
    {
        if !self.config.reachable {
            return None;
        }
        Some(publish_encoded(
                 &self.node,
                 MAINTENANCE_NODE_REACHABLE_PROP_ID,
                 &TypedValue::Bool(value),
                 &ValueFormat::Unconstrained,
                 true,
                 false,
             ))
    }

    /// Publishes the time of the last update, given as wire text.
    pub fn last_update_text(&self, text: &str) -> (r: Option<OutboundMessage>)
        ensures
            match r {
                Some(msg) => self.config().last_update && msg@ == outbound_spec(
                    self.node_ref(),
                    MAINTENANCE_NODE_LAST_UPDATE_PROP_ID@,
                    text@,
                    true,
                    false,
                ),
                None => !self.config().last_update,
            },
    {
        if !self.config.last_update {
            return None;
        }
        Some(
            outbound(&self.node, MAINTENANCE_NODE_LAST_UPDATE_PROP_ID, text.to_owned(), true, false)
        )
    }

    /// Publishes the time of the last update, given in milliseconds since
    /// the Unix epoch, as RFC 3339 text in UTC with milliseconds. `None` where
    /// the configuration leaves the property out, or the instant is beyond
    /// what a calendar date can hold; always `Some` when the property is
    /// configured and the instant lies within about 253,000 years of 1970.
    pub fn last_update(&self, timestamp_millis: i64) -> (r: Option<OutboundMessage>)
        ensures
            !self.config().last_update ==> r is None,
            self.config().last_update && within_calendar(timestamp_millis as int) ==> r is Some,
            r matches Some(msg) ==> self.config().last_update && msg@ == outbound_spec(
                self.node_ref(),
                MAINTENANCE_NODE_LAST_UPDATE_PROP_ID@,
                rfc3339_millis(timestamp_millis as int),
                true,
                false,
            ),
    {
        match utc_millis_text(timestamp_millis) {
            Some(text) => self.last_update_text(text.as_str()),
            None => None,
        }
    }
}

proof fn lemma_maintenance_ids_distinct()
    ensures
        MAINTENANCE_NODE_LOW_BATTERY_PROP_ID@ != MAINTENANCE_NODE_BATTERY_LEVEL_PROP_ID@,
        MAINTENANCE_NODE_LOW_BATTERY_PROP_ID@ != MAINTENANCE_NODE_LAST_UPDATE_PROP_ID@,
        MAINTENANCE_NODE_LOW_BATTERY_PROP_ID@ != MAINTENANCE_NODE_REACHABLE_PROP_ID@,
        MAINTENANCE_NODE_BATTERY_LEVEL_PROP_ID@ != MAINTENANCE_NODE_LAST_UPDATE_PROP_ID@,
        MAINTENANCE_NODE_BATTERY_LEVEL_PROP_ID@ != MAINTENANCE_NODE_REACHABLE_PROP_ID@,
        MAINTENANCE_NODE_LAST_UPDATE_PROP_ID@ != MAINTENANCE_NODE_REACHABLE_PROP_ID@,
{
    reveal_strlit("low-battery");
    reveal_strlit("battery-level");
    reveal_strlit("last-update");
    reveal_strlit("reachable");
    assert(
        MAINTENANCE_NODE_LOW_BATTERY_PROP_ID@.len() != MAINTENANCE_NODE_BATTERY_LEVEL_PROP_ID@.len()
    );
    assert(MAINTENANCE_NODE_LOW_BATTERY_PROP_ID@[1] != MAINTENANCE_NODE_LAST_UPDATE_PROP_ID@[1]);
    assert(
        MAINTENANCE_NODE_LOW_BATTERY_PROP_ID@.len() != MAINTENANCE_NODE_REACHABLE_PROP_ID@.len()
    );
    assert(
        MAINTENANCE_NODE_BATTERY_LEVEL_PROP_ID@.len() != MAINTENANCE_NODE_LAST_UPDATE_PROP_ID@.len()
    );
    assert(
        MAINTENANCE_NODE_BATTERY_LEVEL_PROP_ID@.len() != MAINTENANCE_NODE_REACHABLE_PROP_ID@.len()
    );
    assert(
        MAINTENANCE_NODE_LAST_UPDATE_PROP_ID@.len() != MAINTENANCE_NODE_REACHABLE_PROP_ID@.len()
    );
}

/// Conditional inclusion: each optional property of a maintenance node is in
/// the schema exactly once, with its declared format, when the configuration
/// enables it, and its id is absent when the configuration disables it.
pub proof fn lemma_maintenance_optional_properties(config: MaintenanceNodeConfig)
    ensures
        included_iff(maintenance_properties(config), low_battery_property(), config.low_battery),
        included_iff(
            maintenance_properties(config),
            battery_level_property(),
            config.battery_level,
        ),
        included_iff(maintenance_properties(config), last_update_property(), config.last_update),
        included_iff(maintenance_properties(config), reachable_property(), config.reachable),
{
    lemma_maintenance_ids_distinct();
    let props = maintenance_properties(config);
    let c0: int = if config.low_battery {
        1
    } else {
        0
    };
    let at0: int = 0int;
    if config.low_battery {
        assert(props[at0] == low_battery_property());
    }
    let c1: int = if config.battery_level {
        1
    } else {
        0
    };
    let at1: int = 0int + c0;
    if config.battery_level {
        assert(props[at1] == battery_level_property());
    }
    let c2: int = if config.last_update {
        1
    } else {
        0
    };
    let at2: int = 0int + c0 + c1;
    if config.last_update {
        assert(props[at2] == last_update_property());
    }
    let c3: int = if config.reachable {
        1
    } else {
        0
    };
    let at3: int = 0int + c0 + c1 + c2;
    if config.reachable {
        assert(props[at3] == reachable_property());
    }
    assert(props.len() == 0int + c0 + c1 + c2 + c3);
    assert forall|j: int| 0 <= j < props.len() implies props[j].id == (if j == at0 && c0 == 1 {
        MAINTENANCE_NODE_LOW_BATTERY_PROP_ID@
    } else if j == at1 && c1 == 1 {
        MAINTENANCE_NODE_BATTERY_LEVEL_PROP_ID@
    } else if j == at2 && c2 == 1 {
        MAINTENANCE_NODE_LAST_UPDATE_PROP_ID@
    } else {
        MAINTENANCE_NODE_REACHABLE_PROP_ID@
    }) by {}
}

/// Every maintenance node schema passes the schema checks: valid, distinct ids
/// and formats that suit their datatypes and admit a value.
pub proof fn lemma_maintenance_schema_valid(config: MaintenanceNodeConfig)
    ensures
        schema_valid(maintenance_schema(config)),
{
    lemma_maintenance_ids_distinct();
    reveal_strlit("low-battery");
    reveal_strlit("battery-level");
    reveal_strlit("last-update");
    reveal_strlit("reachable");
    reveal_with_fuel(crate::validation::id_chars, 14);
    reveal_with_fuel(crate::validation::first_problem, 5);
    let props = maintenance_properties(config);
    let c0: int = if config.low_battery {
        1
    } else {
        0
    };
    if config.low_battery {
        assert(props[0int] == low_battery_property());
    }
    let c1: int = if config.battery_level {
        1
    } else {
        0
    };
    if config.battery_level {
        assert(props[0int + c0] == battery_level_property());
    }
    let c2: int = if config.last_update {
        1
    } else {
        0
    };
    if config.last_update {
        assert(props[0int + c0 + c1] == last_update_property());
    }
    let c3: int = if config.reachable {
        1
    } else {
        0
    };
    if config.reachable {
        assert(props[0int + c0 + c1 + c2] == reachable_property());
    }
    assert(props.len() == 0int + c0 + c1 + c2 + c3);
}

} // verus!
