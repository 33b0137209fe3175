//! Thermostat: a settable target temperature within a configured range, and
//! optional valve opening, window-open detection, boost time and mode
//! properties.
use vstd::prelude::*;

use crate::codec::{
    DecodeError, TypedValue, ValueView, decimal_within, encode_view, lemma_round_trip, str_equal,
};
use crate::dispatch::{
    NodeRef, NodeRefView, OutboundMessage, PropertyRef, PropertyRefView, PropertySet, dispatch,
    dispatch_view, outbound, outbound_spec, publish_encoded,
};
use crate::format::{
    DataType, FloatRange, FormatView, IntegerRange, NodeSchema, PropertyDescriptor, PropertyView,
    SchemaView, UNIT_DEGREE_CELSIUS, UNIT_MINUTES, UNIT_PERCENT, ValueFormat, included_iff,
    opt_text, property_spec, texts,
};
use crate::numeric::{Decimal, integer_text, render_decimal, render_integer};
use crate::SMARTHOME_TYPE_THERMOSTAT;
use crate::validation::{float_range_usable, schema_valid};

verus! {

pub const THERMOSTAT_NODE_DEFAULT_ID: &'static str = "thermostat";

pub const THERMOSTAT_NODE_DEFAULT_NAME: &'static str = "Thermostat";

pub const THERMOSTAT_NODE_SET_TEMPERATURE_PROP_ID: &'static str = "set-temperature";

pub const THERMOSTAT_NODE_VALVE_PROP_ID: &'static str = "valve";

pub const THERMOSTAT_NODE_MODE_PROP_ID: &'static str = "mode";

pub const THERMOSTAT_NODE_WINDOWOPEN_PROP_ID: &'static str = "windowopen";

pub const THERMOSTAT_NODE_BOOS_STATE_PROP_ID: &'static str = "boost-state";

/// A thermostat node's runtime state.
#[derive(Debug)]
pub struct ThermostatNode {
    pub publisher: ThermostatNodePublisher,
    pub set_temperature: Decimal,
    pub set_temperature_target: Decimal,
    pub valve: Option<i64>,
    pub mode: Option<ThermostatNodeModes>,
    pub windowopen: Option<bool>,
    pub boost_state: Option<i64>,
}

#[derive(Debug, Copy, PartialEq, Eq, Clone, Structural)]
pub enum ThermostatNodeModes {
    Off,
    Auto,
    Manual,
    Party,
    Boost,
    Cool,
    Heat,
    EmergencyHeating,
    Precooling,
    FanOnly,
    Dry,
    Sleep,
}

impl Default for ThermostatNodeModes {
    fn default() -> (r: ThermostatNodeModes)
        ensures
            r == ThermostatNodeModes::Off,
    {
        ThermostatNodeModes::Off
    }
}

impl ThermostatNodeModes {
    pub open spec fn token(self) -> Seq<char> {
        match self {
            ThermostatNodeModes::Off => "off"@,
            ThermostatNodeModes::Auto => "auto"@,
            ThermostatNodeModes::Manual => "manual"@,
            ThermostatNodeModes::Party => "party"@,
            ThermostatNodeModes::Boost => "boost"@,
            ThermostatNodeModes::Cool => "cool"@,
            ThermostatNodeModes::Heat => "heat"@,
            ThermostatNodeModes::EmergencyHeating => "emergency-heating"@,
            ThermostatNodeModes::Precooling => "precooling"@,
            ThermostatNodeModes::FanOnly => "fan-only"@,
            ThermostatNodeModes::Dry => "dry"@,
            ThermostatNodeModes::Sleep => "sleep"@,
        }
    }

    /// The mode a token names.
    pub open spec fn of_token(s: Seq<char>) -> Option<ThermostatNodeModes> {
        if s == "off"@ {
            Some(ThermostatNodeModes::Off)
        } else if s == "auto"@ {
            Some(ThermostatNodeModes::Auto)
        } else if s == "manual"@ {
            Some(ThermostatNodeModes::Manual)
        } else if s == "party"@ {
            Some(ThermostatNodeModes::Party)
        } else if s == "boost"@ {
            Some(ThermostatNodeModes::Boost)
        } else if s == "cool"@ {
            Some(ThermostatNodeModes::Cool)
        } else if s == "heat"@ {
            Some(ThermostatNodeModes::Heat)
        } else if s == "emergency-heating"@ {
            Some(ThermostatNodeModes::EmergencyHeating)
        } else if s == "precooling"@ {
            Some(ThermostatNodeModes::Precooling)
        } else if s == "fan-only"@ {
            Some(ThermostatNodeModes::FanOnly)
        } else if s == "dry"@ {
            Some(ThermostatNodeModes::Dry)
        } else if s == "sleep"@ {
            Some(ThermostatNodeModes::Sleep)
        } else {
            None
        }
    }

    pub fn as_str(&self) -> (r: &'static str)
        ensures
            r@ == self.token(),
    {
        match self {
            ThermostatNodeModes::Off => "off",
            ThermostatNodeModes::Auto => "auto",
            ThermostatNodeModes::Manual => "manual",
            ThermostatNodeModes::Party => "party",
            ThermostatNodeModes::Boost => "boost",
            ThermostatNodeModes::Cool => "cool",
            ThermostatNodeModes::Heat => "heat",
            ThermostatNodeModes::EmergencyHeating => "emergency-heating",
            ThermostatNodeModes::Precooling => "precooling",
            ThermostatNodeModes::FanOnly => "fan-only",
            ThermostatNodeModes::Dry => "dry",
            ThermostatNodeModes::Sleep => "sleep",
        }
    }

    pub fn to_string(&self) -> (r: String)
        ensures
            r@ == self.token(),
    {
        self.as_str().to_owned()
    }

    /// The mode a token names.
    pub fn try_from(value: &str) -> (r: Result<ThermostatNodeModes, DecodeError>)
        ensures
            r == match ThermostatNodeModes::of_token(value@) {
                Some(m) => Ok::<ThermostatNodeModes, DecodeError>(m),
                None => Err(DecodeError::InvalidPayload),
            },
    {
        if str_equal(value, "off") {
            Ok(ThermostatNodeModes::Off)
        } else if str_equal(value, "auto") {
            Ok(ThermostatNodeModes::Auto)
        } else if str_equal(value, "manual") {
            Ok(ThermostatNodeModes::Manual)
        } else if str_equal(value, "party") {
            Ok(ThermostatNodeModes::Party)
        } else if str_equal(value, "boost") {
            Ok(ThermostatNodeModes::Boost)
        } else if str_equal(value, "cool") {
            Ok(ThermostatNodeModes::Cool)
        } else if str_equal(value, "heat") {
            Ok(ThermostatNodeModes::Heat)
        } else if str_equal(value, "emergency-heating") {
            Ok(ThermostatNodeModes::EmergencyHeating)
        } else if str_equal(value, "precooling") {
            Ok(ThermostatNodeModes::Precooling)
        } else if str_equal(value, "fan-only") {
            Ok(ThermostatNodeModes::FanOnly)
        } else if str_equal(value, "dry") {
            Ok(ThermostatNodeModes::Dry)
        } else if str_equal(value, "sleep") {
            Ok(ThermostatNodeModes::Sleep)
        } else {
            Err(DecodeError::InvalidPayload)
        }
    }
}

#[derive(Debug, PartialEq, Eq, Clone, Copy, Structural)]
pub enum ThermostatNodeSetEvents {
    Mode(ThermostatNodeModes),
    SetTemperature(Decimal),
}

#[derive(Debug, PartialEq, Clone)]
pub struct ThermostatNodeConfig {
    pub unit: String,
    pub valve: bool,
    pub windowopen: bool,
    pub boost_state: bool,
    pub mode: bool,
    pub modes: Vec<ThermostatNodeModes>,
    pub temp_range: FloatRange,
}

impl Default for ThermostatNodeConfig {
    fn default() -> (r: ThermostatNodeConfig)
        ensures
            r.unit@ == UNIT_DEGREE_CELSIUS@,
            r.valve && r.windowopen && r.boost_state && r.mode,
            r.modes@ == seq![ThermostatNodeModes::Auto, ThermostatNodeModes::Manual],
            r.temp_range == (FloatRange {
                min: Some(Decimal { mantissa: 50, scale: 1 }),
                max: Some(Decimal { mantissa: 320, scale: 1 }),
                step: Some(Decimal { mantissa: 5, scale: 1 }),
            }),
    {
        let r = ThermostatNodeConfig {
            unit: UNIT_DEGREE_CELSIUS.to_owned(),
            valve: true,
            windowopen: true,
            boost_state: true,
            mode: true,
            modes: vec![ThermostatNodeModes::Auto, ThermostatNodeModes::Manual],
            temp_range: FloatRange {
                min: Some(Decimal { mantissa: 50, scale: 1 }),
                max: Some(Decimal { mantissa: 320, scale: 1 }),
                step: Some(Decimal { mantissa: 5, scale: 1 }),
            },
        };
        assert(r.modes@ =~= seq![ThermostatNodeModes::Auto, ThermostatNodeModes::Manual]);
        r
    }
}

pub open spec fn window_format() -> FormatView {
    FormatView::BooleanWords { false_word: "closed"@, true_word: "open"@ }
}

pub open spec fn mode_tokens(modes: Seq<ThermostatNodeModes>) -> Seq<Seq<char>> {
    modes.map_values(|m: ThermostatNodeModes| m.token())
}

pub open spec fn set_temperature_property(config: ThermostatNodeConfig) -> PropertyView {
    property_spec(
        THERMOSTAT_NODE_SET_TEMPERATURE_PROP_ID@,
        "Set target temperature"@,
        DataType::Float,
    ).with_format(FormatView::FloatRange(config.temp_range)).with_unit(config.unit@).with_settable(
        true,
    ).with_retained(true)
}

pub open spec fn valve_property() -> PropertyView {
    property_spec(THERMOSTAT_NODE_VALVE_PROP_ID@, "Valve opening Level"@, DataType::Integer)
        .with_format(
            FormatView::IntegerRange(IntegerRange { min: Some(0), max: Some(100), step: None }),
        )
        .with_unit(UNIT_PERCENT@)
        .with_settable(false)
        .with_retained(true)
}

pub open spec fn window_property() -> PropertyView {
    property_spec(
        THERMOSTAT_NODE_WINDOWOPEN_PROP_ID@,
        "Window open detected"@,
        DataType::Boolean,
    ).with_format(window_format()).with_settable(false).with_retained(true)
}

pub open spec fn boost_property() -> PropertyView {
    property_spec(
        THERMOSTAT_NODE_BOOS_STATE_PROP_ID@,
        "Seconds remaining for boost"@,
        DataType::Integer,
    ).with_format(
        FormatView::IntegerRange(IntegerRange { min: Some(0), max: None, step: None }),
    ).with_unit(UNIT_MINUTES@).with_settable(false).with_retained(true)
}

pub open spec fn mode_property(config: ThermostatNodeConfig) -> PropertyView {
    property_spec(THERMOSTAT_NODE_MODE_PROP_ID@, "Change Mode"@, DataType::Enum).with_format(
        FormatView::EnumSet(mode_tokens(config.modes@)),
    ).with_settable(true).with_retained(false)
}

/// The thermostat's properties: the target temperature, then each optional
/// property that the configuration enables.
pub open spec fn thermostat_properties(config: ThermostatNodeConfig) -> Seq<PropertyView> {
    let a = seq![set_temperature_property(config)];
    let b = if config.valve {
        a.push(valve_property())
    } else {
        a
    };
    let c = if config.windowopen {
        b.push(window_property())
    } else {
        b
    };
    let d = if config.boost_state {
        c.push(boost_property())
    } else {
        c
    };
    if config.mode {
        d.push(mode_property(config))
    } else {
        d
    }
}

/// The schema a thermostat configuration declares.
pub open spec fn thermostat_schema(config: ThermostatNodeConfig) -> SchemaView {
    SchemaView {
        type_tag: SMARTHOME_TYPE_THERMOSTAT@,
        name: Some(THERMOSTAT_NODE_DEFAULT_NAME@),
        properties: thermostat_properties(config),
    }
}

/// The event a dispatched command is, if it is one of the thermostat's.
pub open spec fn thermostat_event(d: Option<(Seq<char>, ValueView)>) -> Option<
    ThermostatNodeSetEvents,
> {
    match d {
        Some(p) => if p.0 == THERMOSTAT_NODE_SET_TEMPERATURE_PROP_ID@ {
            match p.1 {
                ValueView::Float(v) => Some(ThermostatNodeSetEvents::SetTemperature(v)),
                _ => None,
            }
        } else if p.0 == THERMOSTAT_NODE_MODE_PROP_ID@ {
            match p.1 {
                ValueView::Enum(t) => match ThermostatNodeModes::of_token(t) {
                    Some(m) => Some(ThermostatNodeSetEvents::Mode(m)),
                    None => None,
                },
                _ => None,
            }
        } else {
            None
        },
        None => None,
    }
}

fn window_words() -> (r: ValueFormat)
    ensures
        r@ == window_format(),
{
    ValueFormat::BooleanWords { false_word: "closed".to_owned(), true_word: "open".to_owned() }
}

fn mode_texts(modes: &Vec<ThermostatNodeModes>) -> (r: Vec<String>)
    ensures
        texts(r@) == mode_tokens(modes@),
{
    let mut r: Vec<String> = Vec::new();
    let mut i: usize = 0;
    while i < modes.len()
        invariant
            i <= modes@.len(),
            r@.len() == i,
            forall|j: int| 0 <= j < i ==> (#[trigger] r@[j])@ == modes@[j].token(),
        decreases modes@.len() - i,
    {
        r.push(modes[i].to_string());
        i = i + 1;
    }
    assert(texts(r@) =~= mode_tokens(modes@));
    r
}

pub struct ThermostatNodeBuilder {
    node_builder: NodeSchema,
}

impl View for ThermostatNodeBuilder {
    type V = SchemaView;

    closed spec fn view(&self) -> SchemaView {
        self.node_builder@
    }
}

impl ThermostatNodeBuilder {
    /// The thermostat schema; the temperature range must be usable (bounds
    /// a decimal can carry, admitting a value, a positive step) and, with a
    /// mode property, at least one mode must be configured.
    pub fn new(config: &ThermostatNodeConfig) -> (r: ThermostatNodeBuilder)
        requires
            float_range_usable(config.temp_range),
            config.mode ==> config.modes@.len() > 0,
        ensures
            r@ == thermostat_schema(*config),
    {
        let mut schema = NodeSchema::new(SMARTHOME_TYPE_THERMOSTAT, THERMOSTAT_NODE_DEFAULT_NAME);
        schema.add_property(
            PropertyDescriptor::new(
                THERMOSTAT_NODE_SET_TEMPERATURE_PROP_ID,
                "Set target temperature",
                DataType::Float,
            )
                .format(ValueFormat::FloatRange(config.temp_range))
                .unit(config.unit.as_str())
                .settable(true)
                .retained(true),
        );
        let ghost a = schema@.properties;
        if config.valve {
            schema.add_property(
                PropertyDescriptor::new(
                    THERMOSTAT_NODE_VALVE_PROP_ID,
                    "Valve opening Level",
                    DataType::Integer,
                ).format(
                    ValueFormat::IntegerRange(
                        IntegerRange { min: Some(0), max: Some(100), step: None },
                    ),
                ).unit(UNIT_PERCENT).settable(false).retained(true),
            );
        }
        if config.windowopen {
            schema.add_property(
                PropertyDescriptor::new(
                    THERMOSTAT_NODE_WINDOWOPEN_PROP_ID,
                    "Window open detected",
                    DataType::Boolean,
                ).format(window_words()).settable(false).retained(true),
            );
        }
        if config.boost_state {
            schema.add_property(
                PropertyDescriptor::new(
                    THERMOSTAT_NODE_BOOS_STATE_PROP_ID,
                    "Seconds remaining for boost",
                    DataType::Integer,
                ).format(
                    ValueFormat::IntegerRange(IntegerRange { min: Some(0), max: None, step: None }),
                ).unit(UNIT_MINUTES).settable(false).retained(true),
            );
        }
        if config.mode {
            schema.add_property(
                PropertyDescriptor::new(
                    THERMOSTAT_NODE_MODE_PROP_ID,
                    "Change Mode",
                    DataType::Enum,
                ).format(ValueFormat::EnumSet(mode_texts(&config.modes))).settable(true).retained(
                    false,
                ),
            );
        }
        assert(a =~= seq![set_temperature_property(*config)]);
        assert(schema@.properties =~= thermostat_properties(*config));
        ThermostatNodeBuilder { node_builder: schema }
    }

    /// Replaces the node's display name.
    pub fn name(self, name: Option<String>) -> (r: ThermostatNodeBuilder)
        ensures
            r@ == self@.named(opt_text(name)),
    {
        let mut schema = self.node_builder;
        schema.set_name(name);
        ThermostatNodeBuilder { node_builder: schema }
    }

    pub fn build(self) -> (r: NodeSchema)
        ensures
            r@ == self@,
    {
        self.node_builder
    }

    /// The schema, and a publisher for the node at the given address.
    pub fn build_with_publisher(self, node: NodeRef) -> (r: (NodeSchema, ThermostatNodePublisher))
        ensures
            r.0@ == self@,
            r.1.node_ref() == node@,
            r.1.schema() == self@,
    {
        let publisher = ThermostatNodePublisher::new(node, self.node_builder.duplicate());
        (self.node_builder, publisher)
    }
}

/// A thermostat node instance: publishes its values and decodes commands
/// sent to it.
#[derive(Debug)]
pub struct ThermostatNodePublisher {
    node: NodeRef,
    schema: NodeSchema,
}

impl ThermostatNodePublisher {
    pub closed spec fn node_ref(&self) -> NodeRefView {
        self.node@
    }

    pub closed spec fn schema(&self) -> SchemaView {
        self.schema@
    }

    pub fn new(node: NodeRef, schema: NodeSchema) -> (r: ThermostatNodePublisher)
        ensures
            r.node_ref() == node@,
            r.schema() == schema@,
    {
        ThermostatNodePublisher { node, schema }
    }

    /// Publishes the current target temperature.
    pub fn set_temperature(&self, value: Decimal) -> (r: OutboundMessage)
        ensures
            r@ == outbound_spec(
                self.node_ref(),
                THERMOSTAT_NODE_SET_TEMPERATURE_PROP_ID@,
                value.text(),
                true,
                false,
            ),
    {
        outbound(
            &self.node,
            THERMOSTAT_NODE_SET_TEMPERATURE_PROP_ID,
            render_decimal(value),
            true,
            false,
        )
    }

    /// Publishes the requested target temperature.
    pub fn set_temperature_target(&self, value: Decimal) -> (r: OutboundMessage)
        ensures
            r@ == outbound_spec(
                self.node_ref(),
                THERMOSTAT_NODE_SET_TEMPERATURE_PROP_ID@,
                value.text(),
                true,
                true,
            ),
    {
        outbound(
            &self.node,
            THERMOSTAT_NODE_SET_TEMPERATURE_PROP_ID,
            render_decimal(value),
            true,
            true,
        )
    }

    /// Publishes the current mode.
    pub fn mode(&self, mode: ThermostatNodeModes) -> (r: OutboundMessage)
        ensures
            r@ == outbound_spec(
                self.node_ref(),
                THERMOSTAT_NODE_MODE_PROP_ID@,
                mode.token(),
                true,
                false,
            ),
    {
        outbound(&self.node, THERMOSTAT_NODE_MODE_PROP_ID, mode.to_string(), true, false)
    }

    /// Publishes the requested mode.
    pub fn mode_target(&self, mode: ThermostatNodeModes) -> (r: OutboundMessage)
        ensures
            r@ == outbound_spec(
                self.node_ref(),
                THERMOSTAT_NODE_MODE_PROP_ID@,
                mode.token(),
                true,
                true,
            ),
    {
        outbound(&self.node, THERMOSTAT_NODE_MODE_PROP_ID, mode.to_string(), true, true)
    }

    /// Publishes the remaining boost time.
    pub fn boost(&self, value: i64) -> (r: OutboundMessage)
        ensures
            r@ == outbound_spec(
                self.node_ref(),
                THERMOSTAT_NODE_BOOS_STATE_PROP_ID@,
                integer_text(value as int),
                true,
                false,
            ),
    {
        outbound(&self.node, THERMOSTAT_NODE_BOOS_STATE_PROP_ID, render_integer(value), true, false)
    }

    /// Publishes the valve opening.
    pub fn valve(&self, value: i64) -> (r: OutboundMessage)
        ensures
            r@ == outbound_spec(
                self.node_ref(),
                THERMOSTAT_NODE_VALVE_PROP_ID@,
                integer_text(value as int),
                true,
                false,
            ),
    {
        outbound(&self.node, THERMOSTAT_NODE_VALVE_PROP_ID, render_integer(value), true, false)
    }

    /// Publishes whether a window is open.
    pub fn windowopen(&self, value: bool) -> (r: OutboundMessage)
        ensures
            r@ == outbound_spec(
                self.node_ref(),
                THERMOSTAT_NODE_WINDOWOPEN_PROP_ID@,
                encode_view(ValueView::Bool(value), window_format()),
                true,
                false,
            ),
    {
        publish_encoded(
            &self.node,
            THERMOSTAT_NODE_WINDOWOPEN_PROP_ID,
            &TypedValue::Bool(value),
            &window_words(),
            true,
            false,
        )
    }

    /// The thermostat event a command is, if it addresses this node, names
    /// one of its properties, and its payload decodes to a known value.
    pub fn match_parse(&self, property: &PropertyRef, set_value: &str) -> (r: Option<
        ThermostatNodeSetEvents,
    >)
        ensures
            r == thermostat_event(
                dispatch_view(self.node_ref(), self.schema(), property@, set_value@),
            ),
    {
        match dispatch(&self.node, &self.schema, property, set_value) {
            None => None,
            Some(v) => {
                if str_equal(property.prop_id.as_str(), THERMOSTAT_NODE_SET_TEMPERATURE_PROP_ID) {
                    match v {
                        TypedValue::Float(d) => Some(ThermostatNodeSetEvents::SetTemperature(d)),
                        _ => None,
                    }
                } else if str_equal(property.prop_id.as_str(), THERMOSTAT_NODE_MODE_PROP_ID) {
                    match v {
                        TypedValue::Enum(t) => match ThermostatNodeModes::try_from(t.as_str()) {
                            Ok(m) => Some(ThermostatNodeSetEvents::Mode(m)),
                            Err(_) => None,
                        },
                        _ => None,
                    }
                } else {
                    None
                }
            },
        }
    }

    /// As [`ThermostatNodePublisher::match_parse`], for an inbound set
    /// command.
    pub fn match_parse_event(&self, event: &PropertySet) -> (r: Option<ThermostatNodeSetEvents>)
        ensures
            r == thermostat_event(
                dispatch_view(self.node_ref(), self.schema(), event.property@, event.set_value@),
            ),
    {
        self.match_parse(&event.property, event.set_value.as_str())
    }
}

proof fn lemma_thermostat_ids_distinct()
    ensures
        THERMOSTAT_NODE_SET_TEMPERATURE_PROP_ID@.len() == 15,
        THERMOSTAT_NODE_VALVE_PROP_ID@.len() == 5,
        THERMOSTAT_NODE_WINDOWOPEN_PROP_ID@.len() == 10,
        THERMOSTAT_NODE_BOOS_STATE_PROP_ID@.len() == 11,
        THERMOSTAT_NODE_MODE_PROP_ID@.len() == 4,
{
    reveal_strlit("set-temperature");
    reveal_strlit("valve");
    reveal_strlit("windowopen");
    reveal_strlit("boost-state");
    reveal_strlit("mode");
}

/// Conditional inclusion: each optional thermostat property is in the schema
/// exactly once, with its declared format, when the configuration enables
/// it, and its id is absent when the configuration disables it.
pub proof fn lemma_thermostat_optional_properties(config: ThermostatNodeConfig)
    ensures
        included_iff(thermostat_schema(config).properties, valve_property(), config.valve),
        included_iff(thermostat_schema(config).properties, window_property(), config.windowopen),
        included_iff(thermostat_schema(config).properties, boost_property(), config.boost_state),
        included_iff(thermostat_schema(config).properties, mode_property(config), config.mode),
{
    lemma_thermostat_ids_distinct();
    let props = thermostat_schema(config).properties;
    let v: int = if config.valve {
        1
    } else {
        0
    };
    let w: int = if config.windowopen {
        1
    } else {
        0
    };
    let b: int = if config.boost_state {
        1
    } else {
        0
    };
    let m: int = if config.mode {
        1
    } else {
        0
    };
    assert(props.len() == 1 + v + w + b + m);
    assert(props[0] == set_temperature_property(config));
    if config.valve {
        assert(props[1] == valve_property());
    }
    if config.windowopen {
        assert(props[1 + v] == window_property());
    }
    if config.boost_state {
        assert(props[1 + v + w] == boost_property());
    }
    if config.mode {
        assert(props[1 + v + w + b] == mode_property(config));
    }
    assert forall|j: int| 0 <= j < props.len() implies props[j].id.len() == (if j == 0 {
        15int
    } else if config.valve && j == 1 {
        5int
    } else if config.windowopen && j == 1 + v {
        10int
    } else if config.boost_state && j == 1 + v + w {
        11int
    } else {
        4int
    }) by {}
}

/// A thermostat schema passes the schema checks (valid, distinct ids and
/// formats that suit their datatypes and admit a value) where its
/// temperature range is usable and, with a mode property, at least one
/// mode is configured.
pub proof fn lemma_thermostat_schema_valid(config: ThermostatNodeConfig)
    requires
        float_range_usable(config.temp_range),
        config.mode ==> config.modes@.len() > 0,
    ensures
        schema_valid(thermostat_schema(config)),
{
    lemma_thermostat_ids_distinct();
    reveal_strlit("set-temperature");
    reveal_strlit("valve");
    reveal_strlit("windowopen");
    reveal_strlit("boost-state");
    reveal_strlit("mode");
    reveal_strlit("closed");
    reveal_strlit("open");
    reveal_strlit("off");
    reveal_strlit("auto");
    reveal_strlit("manual");
    reveal_strlit("party");
    reveal_strlit("boost");
    reveal_strlit("cool");
    reveal_strlit("heat");
    reveal_strlit("emergency-heating");
    reveal_strlit("precooling");
    reveal_strlit("fan-only");
    reveal_strlit("dry");
    reveal_strlit("sleep");
    reveal_with_fuel(crate::validation::id_chars, 16);
    reveal_with_fuel(crate::validation::first_problem, 6);
    let props = thermostat_schema(config).properties;
    let v: int = if config.valve {
        1
    } else {
        0
    };
    let w: int = if config.windowopen {
        1
    } else {
        0
    };
    let b: int = if config.boost_state {
        1
    } else {
        0
    };
    let m: int = if config.mode {
        1
    } else {
        0
    };
    assert(props.len() == 1 + v + w + b + m);
    assert(props[0] == set_temperature_property(config));
    if config.valve {
        assert(props[1] == valve_property());
    }
    if config.windowopen {
        assert(props[1 + v] == window_property());
    }
    if config.boost_state {
        assert(props[1 + v + w] == boost_property());
    }
    if config.mode {
        assert(props[1 + v + w + b] == mode_property(config));
        let t = mode_tokens(config.modes@);
        assert forall|k: int| 0 <= k < t.len() implies t[k].len() > 0 by {
            assert(t[k] == config.modes@[k].token());
        }
    }
}

/// Round trip through the node: a target temperature within the configured
/// range, published as text the way the thermostat publishes it, dispatches
/// back as a request for that same temperature.
pub proof fn lemma_thermostat_set_temperature_round_trip(
    config: ThermostatNodeConfig,
    node: NodeRefView,
    value: Decimal,
)
    requires
        float_range_usable(config.temp_range),
        value.well_formed(),
        decimal_within(value, FormatView::FloatRange(config.temp_range)),
    ensures
        thermostat_event(
            dispatch_view(
                node,
                thermostat_schema(config),
                (PropertyRefView { node, prop_id: THERMOSTAT_NODE_SET_TEMPERATURE_PROP_ID@ }),
                value.text(),
            ),
        ) == Some(ThermostatNodeSetEvents::SetTemperature(value)),
{
    let schema = thermostat_schema(config);
    let p = set_temperature_property(config);
    assert(schema.properties[0] == p);
    assert(schema.position_of(THERMOSTAT_NODE_SET_TEMPERATURE_PROP_ID@) == Some(0int));
    lemma_round_trip(ValueView::Float(value), p);
}

} // verus!
