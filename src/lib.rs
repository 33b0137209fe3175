//! Smart-home node types on a self-describing device-and-property protocol.
//!
//! Each node type (switch, dimmer, shutter, thermostat, sensors, ...) is a
//! small declaration table over one generic engine:
//! - [`format`]: value formats, property descriptors and node schemas;
//! - [`codec`]: a property's wire text to a typed value and back;
//! - [`dispatch`]: node and property addresses, inbound commands matched to a
//!   node and decoded, outbound messages;
//! - [`validation`]: the checks a schema passes before it is advertised;
//! - [`numeric`]: integer and decimal wire text;
//! - one module per node type: its configuration, schema builder, domain
//!   events and publish operations.
use vstd::prelude::*;

pub mod alerts;
pub mod button_node;
pub mod codec;
pub mod colorlight_node;
pub mod contact_node;
pub mod dimmer_node;
pub mod dispatch;
pub mod format;
pub mod light_scene_node;
pub mod maintenance_node;
pub mod motion_node;
pub mod numeric;
pub mod numeric_sensor_node;
pub mod orientation_node;
pub mod powermeter_node;
pub mod shutter_node;
pub mod switch_node;
pub mod thermostat_node;
pub mod tilt_node;
pub mod validation;
pub mod vibration_node;
pub mod water_sensor_node;
pub mod weather_node;

use crate::button_node::ButtonNodeConfig;
use crate::codec::{ValueView, str_equal};
use crate::colorlight_node::{ColorlightNode, ColorlightNodeConfig, colorlight_event};
use crate::contact_node::ContactNode;
use crate::dimmer_node::{DimmerNode, DimmerNodeConfig, dimmer_event};
use crate::dispatch::{NodeRefView, PropertyRefView, dispatch_view};
use crate::format::SchemaView;
use crate::light_scene_node::{LightSceneNodeConfig, scene_event};
use crate::maintenance_node::{MaintenanceNode, MaintenanceNodeConfig};
use crate::motion_node::{MotionNode, MotionNodeConfig};
use crate::numeric_sensor_node::NumericSensorNode;
use crate::shutter_node::{ShutterNode, ShutterNodeConfig, shutter_event};
use crate::switch_node::{SwitchNode, SwitchNodeConfig, switch_event};
use crate::thermostat_node::{ThermostatNodeConfig, thermostat_event};
use crate::tilt_node::TiltNode;
use crate::vibration_node::VibrationNodeConfig;
use crate::water_sensor_node::WaterSensorNode;
use crate::weather_node::{WeatherNode, WeatherNodeConfig};

verus! {

/// The namespace of the home-control node types.
pub const SMARTHOME_NS_V1: &'static str = "homie-homecontrol/v1";

pub const SMARTHOME_TYPE_MAINTENANCE: &'static str = "homie-homecontrol/v1/type=maintenance";

pub const SMARTHOME_TYPE_SWITCH: &'static str = "homie-homecontrol/v1/type=switch";

pub const SMARTHOME_TYPE_DIMMER: &'static str = "homie-homecontrol/v1/type=dimmer";

pub const SMARTHOME_TYPE_CONTACT: &'static str = "homie-homecontrol/v1/type=contact";

pub const SMARTHOME_TYPE_WEATHER: &'static str = "homie-homecontrol/v1/type=weather";

pub const SMARTHOME_TYPE_MOTION: &'static str = "homie-homecontrol/v1/type=motion";

pub const SMARTHOME_TYPE_BUTTON: &'static str = "homie-homecontrol/v1/type=button";

pub const SMARTHOME_TYPE_COLORLIGHT: &'static str = "homie-homecontrol/v1/type=colorlight";

pub const SMARTHOME_TYPE_LIGHTSCENE: &'static str = "homie-homecontrol/v1/type=lightscene";

pub const SMARTHOME_TYPE_NUMERIC: &'static str = "homie-homecontrol/v1/type=numeric";

pub const SMARTHOME_TYPE_VIBRATION: &'static str = "homie-homecontrol/v1/type=vibration";

pub const SMARTHOME_TYPE_ORIENTATION: &'static str = "homie-homecontrol/v1/type=orientation";

pub const SMARTHOME_TYPE_WATER_SENSOR: &'static str = "homie-homecontrol/v1/type=water";

pub const SMARTHOME_TYPE_SHUTTER: &'static str = "homie-homecontrol/v1/type=shutter";

pub const SMARTHOME_TYPE_TILT: &'static str = "homie-homecontrol/v1/type=tilt";

pub const SMARTHOME_TYPE_THERMOSTAT: &'static str = "homie-homecontrol/v1/type=thermostat";

pub const SMARTHOME_TYPE_POWERMETER: &'static str = "homie-homecontrol/v1/type=powermeter";

/// The home-control node types.
#[derive(Debug, PartialEq, Eq, Clone, Copy, Structural)]
pub enum SmarthomeType {
    Switch,
    Dimmer,
    Maintenance,
    Contact,
    Weather,
    Motion,
    Button,
    ColorLight,
    LightScene,
    Numeric,
    Vibration,
    Orientation,
    WaterSensor,
    Shutter,
    Tilt,
    Thermostat,
}

impl SmarthomeType {
    /// The type tag of a node type.
    pub open spec fn tag(self) -> Seq<char> {
        match self {
            SmarthomeType::Switch => SMARTHOME_TYPE_SWITCH@,
            SmarthomeType::Dimmer => SMARTHOME_TYPE_DIMMER@,
            SmarthomeType::Maintenance => SMARTHOME_TYPE_MAINTENANCE@,
            SmarthomeType::Contact => SMARTHOME_TYPE_CONTACT@,
            SmarthomeType::Weather => SMARTHOME_TYPE_WEATHER@,
            SmarthomeType::Motion => SMARTHOME_TYPE_MOTION@,
            SmarthomeType::Button => SMARTHOME_TYPE_BUTTON@,
            SmarthomeType::ColorLight => SMARTHOME_TYPE_COLORLIGHT@,
            SmarthomeType::LightScene => SMARTHOME_TYPE_LIGHTSCENE@,
            SmarthomeType::Numeric => SMARTHOME_TYPE_NUMERIC@,
            SmarthomeType::Vibration => SMARTHOME_TYPE_VIBRATION@,
            SmarthomeType::Orientation => SMARTHOME_TYPE_ORIENTATION@,
            SmarthomeType::WaterSensor => SMARTHOME_TYPE_WATER_SENSOR@,
            SmarthomeType::Shutter => SMARTHOME_TYPE_SHUTTER@,
            SmarthomeType::Tilt => SMARTHOME_TYPE_TILT@,
            SmarthomeType::Thermostat => SMARTHOME_TYPE_THERMOSTAT@,
        }
    }

    /// The node type a tag names, checking the tags in declaration order.
    pub open spec fn of_tag(s: Seq<char>) -> Option<SmarthomeType> {
        if s == SMARTHOME_TYPE_SWITCH@ {
            Some(SmarthomeType::Switch)
        } else if s == SMARTHOME_TYPE_DIMMER@ {
            Some(SmarthomeType::Dimmer)
        } else if s == SMARTHOME_TYPE_MAINTENANCE@ {
            Some(SmarthomeType::Maintenance)
        } else if s == SMARTHOME_TYPE_CONTACT@ {
            Some(SmarthomeType::Contact)
        } else if s == SMARTHOME_TYPE_WEATHER@ {
            Some(SmarthomeType::Weather)
        } else if s == SMARTHOME_TYPE_MOTION@ {
            Some(SmarthomeType::Motion)
        } else if s == SMARTHOME_TYPE_BUTTON@ {
            Some(SmarthomeType::Button)
        } else if s == SMARTHOME_TYPE_COLORLIGHT@ {
            Some(SmarthomeType::ColorLight)
        } else if s == SMARTHOME_TYPE_LIGHTSCENE@ {
            Some(SmarthomeType::LightScene)
        } else if s == SMARTHOME_TYPE_NUMERIC@ {
            Some(SmarthomeType::Numeric)
        } else if s == SMARTHOME_TYPE_VIBRATION@ {
            Some(SmarthomeType::Vibration)
        } else if s == SMARTHOME_TYPE_ORIENTATION@ {
            Some(SmarthomeType::Orientation)
        } else if s == SMARTHOME_TYPE_WATER_SENSOR@ {
            Some(SmarthomeType::WaterSensor)
        } else if s == SMARTHOME_TYPE_SHUTTER@ {
            Some(SmarthomeType::Shutter)
        } else if s == SMARTHOME_TYPE_TILT@ {
            Some(SmarthomeType::Tilt)
        } else if s == SMARTHOME_TYPE_THERMOSTAT@ {
            Some(SmarthomeType::Thermostat)
        } else {
            None
        }
    }

    /// The type tag of this node type.
    pub fn as_str(&self) -> (r: &'static str)
        ensures
            r@ == self.tag(),
    {
        match self {
            SmarthomeType::Switch => SMARTHOME_TYPE_SWITCH,
            SmarthomeType::Dimmer => SMARTHOME_TYPE_DIMMER,
            SmarthomeType::Maintenance => SMARTHOME_TYPE_MAINTENANCE,
            SmarthomeType::Contact => SMARTHOME_TYPE_CONTACT,
            SmarthomeType::Weather => SMARTHOME_TYPE_WEATHER,
            SmarthomeType::Motion => SMARTHOME_TYPE_MOTION,
            SmarthomeType::Button => SMARTHOME_TYPE_BUTTON,
            SmarthomeType::ColorLight => SMARTHOME_TYPE_COLORLIGHT,
            SmarthomeType::LightScene => SMARTHOME_TYPE_LIGHTSCENE,
            SmarthomeType::Numeric => SMARTHOME_TYPE_NUMERIC,
            SmarthomeType::Vibration => SMARTHOME_TYPE_VIBRATION,
            SmarthomeType::Orientation => SMARTHOME_TYPE_ORIENTATION,
            SmarthomeType::WaterSensor => SMARTHOME_TYPE_WATER_SENSOR,
            SmarthomeType::Shutter => SMARTHOME_TYPE_SHUTTER,
            SmarthomeType::Tilt => SMARTHOME_TYPE_TILT,
            SmarthomeType::Thermostat => SMARTHOME_TYPE_THERMOSTAT,
        }
    }

    /// The node type whose tag is the given text.
    pub fn from_constant(value: &str) -> (r: Option<SmarthomeType>)
        ensures
            r == SmarthomeType::of_tag(value@),
    {
        if str_equal(value, SMARTHOME_TYPE_SWITCH) {
            Some(SmarthomeType::Switch)
        } else if str_equal(value, SMARTHOME_TYPE_DIMMER) {
            Some(SmarthomeType::Dimmer)
        } else if str_equal(value, SMARTHOME_TYPE_MAINTENANCE) {
            Some(SmarthomeType::Maintenance)
        } else if str_equal(value, SMARTHOME_TYPE_CONTACT) {
            Some(SmarthomeType::Contact)
        } else if str_equal(value, SMARTHOME_TYPE_WEATHER) {
            Some(SmarthomeType::Weather)
        } else if str_equal(value, SMARTHOME_TYPE_MOTION) {
            Some(SmarthomeType::Motion)
        } else if str_equal(value, SMARTHOME_TYPE_BUTTON) {
            Some(SmarthomeType::Button)
        } else if str_equal(value, SMARTHOME_TYPE_COLORLIGHT) {
            Some(SmarthomeType::ColorLight)
        } else if str_equal(value, SMARTHOME_TYPE_LIGHTSCENE) {
            Some(SmarthomeType::LightScene)
        } else if str_equal(value, SMARTHOME_TYPE_NUMERIC) {
            Some(SmarthomeType::Numeric)
        } else if str_equal(value, SMARTHOME_TYPE_VIBRATION) {
            Some(SmarthomeType::Vibration)
        } else if str_equal(value, SMARTHOME_TYPE_ORIENTATION) {
            Some(SmarthomeType::Orientation)
        } else if str_equal(value, SMARTHOME_TYPE_WATER_SENSOR) {
            Some(SmarthomeType::WaterSensor)
        } else if str_equal(value, SMARTHOME_TYPE_SHUTTER) {
            Some(SmarthomeType::Shutter)
        } else if str_equal(value, SMARTHOME_TYPE_TILT) {
            Some(SmarthomeType::Tilt)
        } else if str_equal(value, SMARTHOME_TYPE_THERMOSTAT) {
            Some(SmarthomeType::Thermostat)
        } else {
            None
        }
    }

    /// Parses a type tag; the error carries nothing.
    pub fn from_str(s: &str) -> (r: Result<SmarthomeType, ()>)
        ensures
            r == match SmarthomeType::of_tag(s@) {
                Some(t) => Ok::<SmarthomeType, ()>(t),
                None => Err(()),
            },
    {
        match SmarthomeType::from_constant(s) {
            Some(t) => Ok(t),
            None => Err(()),
        }
    }

    /// The tag as an owned text.
    pub fn to_string(&self) -> (r: String)
        ensures
            r@ == self.tag(),
    {
        self.as_str().to_owned()
    }
}

proof fn lemma_type_tags_distinct()
    ensures
        forall|a: SmarthomeType, b: SmarthomeType| a.tag() == b.tag() ==> a == b,
{
    reveal_strlit("homie-homecontrol/v1/type=switch");
    reveal_strlit("homie-homecontrol/v1/type=dimmer");
    reveal_strlit("homie-homecontrol/v1/type=maintenance");
    reveal_strlit("homie-homecontrol/v1/type=contact");
    reveal_strlit("homie-homecontrol/v1/type=weather");
    reveal_strlit("homie-homecontrol/v1/type=motion");
    reveal_strlit("homie-homecontrol/v1/type=button");
    reveal_strlit("homie-homecontrol/v1/type=colorlight");
    reveal_strlit("homie-homecontrol/v1/type=lightscene");
    reveal_strlit("homie-homecontrol/v1/type=numeric");
    reveal_strlit("homie-homecontrol/v1/type=vibration");
    reveal_strlit("homie-homecontrol/v1/type=orientation");
    reveal_strlit("homie-homecontrol/v1/type=water");
    reveal_strlit("homie-homecontrol/v1/type=shutter");
    reveal_strlit("homie-homecontrol/v1/type=tilt");
    reveal_strlit("homie-homecontrol/v1/type=thermostat");
    assert(SMARTHOME_TYPE_SWITCH@[26] != SMARTHOME_TYPE_DIMMER@[26]);
    assert(SMARTHOME_TYPE_SWITCH@.len() != SMARTHOME_TYPE_MAINTENANCE@.len());
    assert(SMARTHOME_TYPE_SWITCH@.len() != SMARTHOME_TYPE_CONTACT@.len());
    assert(SMARTHOME_TYPE_SWITCH@.len() != SMARTHOME_TYPE_WEATHER@.len());
    assert(SMARTHOME_TYPE_SWITCH@[26] != SMARTHOME_TYPE_MOTION@[26]);
    assert(SMARTHOME_TYPE_SWITCH@[26] != SMARTHOME_TYPE_BUTTON@[26]);
    assert(SMARTHOME_TYPE_SWITCH@.len() != SMARTHOME_TYPE_COLORLIGHT@.len());
    assert(SMARTHOME_TYPE_SWITCH@.len() != SMARTHOME_TYPE_LIGHTSCENE@.len());
    assert(SMARTHOME_TYPE_SWITCH@.len() != SMARTHOME_TYPE_NUMERIC@.len());
    assert(SMARTHOME_TYPE_SWITCH@.len() != SMARTHOME_TYPE_VIBRATION@.len());
    assert(SMARTHOME_TYPE_SWITCH@.len() != SMARTHOME_TYPE_ORIENTATION@.len());
    assert(SMARTHOME_TYPE_SWITCH@.len() != SMARTHOME_TYPE_WATER_SENSOR@.len());
    assert(SMARTHOME_TYPE_SWITCH@.len() != SMARTHOME_TYPE_SHUTTER@.len());
    assert(SMARTHOME_TYPE_SWITCH@.len() != SMARTHOME_TYPE_TILT@.len());
    assert(SMARTHOME_TYPE_SWITCH@.len() != SMARTHOME_TYPE_THERMOSTAT@.len());
    assert(SMARTHOME_TYPE_DIMMER@.len() != SMARTHOME_TYPE_MAINTENANCE@.len());
    assert(SMARTHOME_TYPE_DIMMER@.len() != SMARTHOME_TYPE_CONTACT@.len());
    assert(SMARTHOME_TYPE_DIMMER@.len() != SMARTHOME_TYPE_WEATHER@.len());
    assert(SMARTHOME_TYPE_DIMMER@[26] != SMARTHOME_TYPE_MOTION@[26]);
    assert(SMARTHOME_TYPE_DIMMER@[26] != SMARTHOME_TYPE_BUTTON@[26]);
    assert(SMARTHOME_TYPE_DIMMER@.len() != SMARTHOME_TYPE_COLORLIGHT@.len());
    assert(SMARTHOME_TYPE_DIMMER@.len() != SMARTHOME_TYPE_LIGHTSCENE@.len());
    assert(SMARTHOME_TYPE_DIMMER@.len() != SMARTHOME_TYPE_NUMERIC@.len());
    assert(SMARTHOME_TYPE_DIMMER@.len() != SMARTHOME_TYPE_VIBRATION@.len());
    assert(SMARTHOME_TYPE_DIMMER@.len() != SMARTHOME_TYPE_ORIENTATION@.len());
    assert(SMARTHOME_TYPE_DIMMER@.len() != SMARTHOME_TYPE_WATER_SENSOR@.len());
    assert(SMARTHOME_TYPE_DIMMER@.len() != SMARTHOME_TYPE_SHUTTER@.len());
    assert(SMARTHOME_TYPE_DIMMER@.len() != SMARTHOME_TYPE_TILT@.len());
    assert(SMARTHOME_TYPE_DIMMER@.len() != SMARTHOME_TYPE_THERMOSTAT@.len());
    assert(SMARTHOME_TYPE_MAINTENANCE@.len() != SMARTHOME_TYPE_CONTACT@.len());
    assert(SMARTHOME_TYPE_MAINTENANCE@.len() != SMARTHOME_TYPE_WEATHER@.len());
    assert(SMARTHOME_TYPE_MAINTENANCE@.len() != SMARTHOME_TYPE_MOTION@.len());
    assert(SMARTHOME_TYPE_MAINTENANCE@.len() != SMARTHOME_TYPE_BUTTON@.len());
    assert(SMARTHOME_TYPE_MAINTENANCE@.len() != SMARTHOME_TYPE_COLORLIGHT@.len());
    assert(SMARTHOME_TYPE_MAINTENANCE@.len() != SMARTHOME_TYPE_LIGHTSCENE@.len());
    assert(SMARTHOME_TYPE_MAINTENANCE@.len() != SMARTHOME_TYPE_NUMERIC@.len());
    assert(SMARTHOME_TYPE_MAINTENANCE@.len() != SMARTHOME_TYPE_VIBRATION@.len());
    assert(SMARTHOME_TYPE_MAINTENANCE@[26] != SMARTHOME_TYPE_ORIENTATION@[26]);
    assert(SMARTHOME_TYPE_MAINTENANCE@.len() != SMARTHOME_TYPE_WATER_SENSOR@.len());
    assert(SMARTHOME_TYPE_MAINTENANCE@.len() != SMARTHOME_TYPE_SHUTTER@.len());
    assert(SMARTHOME_TYPE_MAINTENANCE@.len() != SMARTHOME_TYPE_TILT@.len());
    assert(SMARTHOME_TYPE_MAINTENANCE@.len() != SMARTHOME_TYPE_THERMOSTAT@.len());
    assert(SMARTHOME_TYPE_CONTACT@[26] != SMARTHOME_TYPE_WEATHER@[26]);
    assert(SMARTHOME_TYPE_CONTACT@.len() != SMARTHOME_TYPE_MOTION@.len());
    assert(SMARTHOME_TYPE_CONTACT@.len() != SMARTHOME_TYPE_BUTTON@.len());
    assert(SMARTHOME_TYPE_CONTACT@.len() != SMARTHOME_TYPE_COLORLIGHT@.len());
    assert(SMARTHOME_TYPE_CONTACT@.len() != SMARTHOME_TYPE_LIGHTSCENE@.len());
    assert(SMARTHOME_TYPE_CONTACT@[26] != SMARTHOME_TYPE_NUMERIC@[26]);
    assert(SMARTHOME_TYPE_CONTACT@.len() != SMARTHOME_TYPE_VIBRATION@.len());
    assert(SMARTHOME_TYPE_CONTACT@.len() != SMARTHOME_TYPE_ORIENTATION@.len());
    assert(SMARTHOME_TYPE_CONTACT@.len() != SMARTHOME_TYPE_WATER_SENSOR@.len());
    assert(SMARTHOME_TYPE_CONTACT@[26] != SMARTHOME_TYPE_SHUTTER@[26]);
    assert(SMARTHOME_TYPE_CONTACT@.len() != SMARTHOME_TYPE_TILT@.len());
    assert(SMARTHOME_TYPE_CONTACT@.len() != SMARTHOME_TYPE_THERMOSTAT@.len());
    assert(SMARTHOME_TYPE_WEATHER@.len() != SMARTHOME_TYPE_MOTION@.len());
    assert(SMARTHOME_TYPE_WEATHER@.len() != SMARTHOME_TYPE_BUTTON@.len());
    assert(SMARTHOME_TYPE_WEATHER@.len() != SMARTHOME_TYPE_COLORLIGHT@.len());
    assert(SMARTHOME_TYPE_WEATHER@.len() != SMARTHOME_TYPE_LIGHTSCENE@.len());
    assert(SMARTHOME_TYPE_WEATHER@[26] != SMARTHOME_TYPE_NUMERIC@[26]);
    assert(SMARTHOME_TYPE_WEATHER@.len() != SMARTHOME_TYPE_VIBRATION@.len());
    assert(SMARTHOME_TYPE_WEATHER@.len() != SMARTHOME_TYPE_ORIENTATION@.len());
    assert(SMARTHOME_TYPE_WEATHER@.len() != SMARTHOME_TYPE_WATER_SENSOR@.len());
    assert(SMARTHOME_TYPE_WEATHER@[26] != SMARTHOME_TYPE_SHUTTER@[26]);
    assert(SMARTHOME_TYPE_WEATHER@.len() != SMARTHOME_TYPE_TILT@.len());
    assert(SMARTHOME_TYPE_WEATHER@.len() != SMARTHOME_TYPE_THERMOSTAT@.len());
    assert(SMARTHOME_TYPE_MOTION@[26] != SMARTHOME_TYPE_BUTTON@[26]);
    assert(SMARTHOME_TYPE_MOTION@.len() != SMARTHOME_TYPE_COLORLIGHT@.len());
    assert(SMARTHOME_TYPE_MOTION@.len() != SMARTHOME_TYPE_LIGHTSCENE@.len());
    assert(SMARTHOME_TYPE_MOTION@.len() != SMARTHOME_TYPE_NUMERIC@.len());
    assert(SMARTHOME_TYPE_MOTION@.len() != SMARTHOME_TYPE_VIBRATION@.len());
    assert(SMARTHOME_TYPE_MOTION@.len() != SMARTHOME_TYPE_ORIENTATION@.len());
    assert(SMARTHOME_TYPE_MOTION@.len() != SMARTHOME_TYPE_WATER_SENSOR@.len());
    assert(SMARTHOME_TYPE_MOTION@.len() != SMARTHOME_TYPE_SHUTTER@.len());
    assert(SMARTHOME_TYPE_MOTION@.len() != SMARTHOME_TYPE_TILT@.len());
    assert(SMARTHOME_TYPE_MOTION@.len() != SMARTHOME_TYPE_THERMOSTAT@.len());
    assert(SMARTHOME_TYPE_BUTTON@.len() != SMARTHOME_TYPE_COLORLIGHT@.len());
    assert(SMARTHOME_TYPE_BUTTON@.len() != SMARTHOME_TYPE_LIGHTSCENE@.len());
    assert(SMARTHOME_TYPE_BUTTON@.len() != SMARTHOME_TYPE_NUMERIC@.len());
    assert(SMARTHOME_TYPE_BUTTON@.len() != SMARTHOME_TYPE_VIBRATION@.len());
    assert(SMARTHOME_TYPE_BUTTON@.len() != SMARTHOME_TYPE_ORIENTATION@.len());
    assert(SMARTHOME_TYPE_BUTTON@.len() != SMARTHOME_TYPE_WATER_SENSOR@.len());
    assert(SMARTHOME_TYPE_BUTTON@.len() != SMARTHOME_TYPE_SHUTTER@.len());
    assert(SMARTHOME_TYPE_BUTTON@.len() != SMARTHOME_TYPE_TILT@.len());
    assert(SMARTHOME_TYPE_BUTTON@.len() != SMARTHOME_TYPE_THERMOSTAT@.len());
    assert(SMARTHOME_TYPE_COLORLIGHT@[26] != SMARTHOME_TYPE_LIGHTSCENE@[26]);
    assert(SMARTHOME_TYPE_COLORLIGHT@.len() != SMARTHOME_TYPE_NUMERIC@.len());
    assert(SMARTHOME_TYPE_COLORLIGHT@.len() != SMARTHOME_TYPE_VIBRATION@.len());
    assert(SMARTHOME_TYPE_COLORLIGHT@.len() != SMARTHOME_TYPE_ORIENTATION@.len());
    assert(SMARTHOME_TYPE_COLORLIGHT@.len() != SMARTHOME_TYPE_WATER_SENSOR@.len());
    assert(SMARTHOME_TYPE_COLORLIGHT@.len() != SMARTHOME_TYPE_SHUTTER@.len());
    assert(SMARTHOME_TYPE_COLORLIGHT@.len() != SMARTHOME_TYPE_TILT@.len());
    assert(SMARTHOME_TYPE_COLORLIGHT@[26] != SMARTHOME_TYPE_THERMOSTAT@[26]);
    assert(SMARTHOME_TYPE_LIGHTSCENE@.len() != SMARTHOME_TYPE_NUMERIC@.len());
    assert(SMARTHOME_TYPE_LIGHTSCENE@.len() != SMARTHOME_TYPE_VIBRATION@.len());
    assert(SMARTHOME_TYPE_LIGHTSCENE@.len() != SMARTHOME_TYPE_ORIENTATION@.len());
    assert(SMARTHOME_TYPE_LIGHTSCENE@.len() != SMARTHOME_TYPE_WATER_SENSOR@.len());
    assert(SMARTHOME_TYPE_LIGHTSCENE@.len() != SMARTHOME_TYPE_SHUTTER@.len());
    assert(SMARTHOME_TYPE_LIGHTSCENE@.len() != SMARTHOME_TYPE_TILT@.len());
    assert(SMARTHOME_TYPE_LIGHTSCENE@[26] != SMARTHOME_TYPE_THERMOSTAT@[26]);
    assert(SMARTHOME_TYPE_NUMERIC@.len() != SMARTHOME_TYPE_VIBRATION@.len());
    assert(SMARTHOME_TYPE_NUMERIC@.len() != SMARTHOME_TYPE_ORIENTATION@.len());
    assert(SMARTHOME_TYPE_NUMERIC@.len() != SMARTHOME_TYPE_WATER_SENSOR@.len());
    assert(SMARTHOME_TYPE_NUMERIC@[26] != SMARTHOME_TYPE_SHUTTER@[26]);
    assert(SMARTHOME_TYPE_NUMERIC@.len() != SMARTHOME_TYPE_TILT@.len());
    assert(SMARTHOME_TYPE_NUMERIC@.len() != SMARTHOME_TYPE_THERMOSTAT@.len());
    assert(SMARTHOME_TYPE_VIBRATION@.len() != SMARTHOME_TYPE_ORIENTATION@.len());
    assert(SMARTHOME_TYPE_VIBRATION@.len() != SMARTHOME_TYPE_WATER_SENSOR@.len());
    assert(SMARTHOME_TYPE_VIBRATION@.len() != SMARTHOME_TYPE_SHUTTER@.len());
    assert(SMARTHOME_TYPE_VIBRATION@.len() != SMARTHOME_TYPE_TILT@.len());
    assert(SMARTHOME_TYPE_VIBRATION@.len() != SMARTHOME_TYPE_THERMOSTAT@.len());
    assert(SMARTHOME_TYPE_ORIENTATION@.len() != SMARTHOME_TYPE_WATER_SENSOR@.len());
    assert(SMARTHOME_TYPE_ORIENTATION@.len() != SMARTHOME_TYPE_SHUTTER@.len());
    assert(SMARTHOME_TYPE_ORIENTATION@.len() != SMARTHOME_TYPE_TILT@.len());
    assert(SMARTHOME_TYPE_ORIENTATION@.len() != SMARTHOME_TYPE_THERMOSTAT@.len());
    assert(SMARTHOME_TYPE_WATER_SENSOR@.len() != SMARTHOME_TYPE_SHUTTER@.len());
    assert(SMARTHOME_TYPE_WATER_SENSOR@.len() != SMARTHOME_TYPE_TILT@.len());
    assert(SMARTHOME_TYPE_WATER_SENSOR@.len() != SMARTHOME_TYPE_THERMOSTAT@.len());
    assert(SMARTHOME_TYPE_SHUTTER@.len() != SMARTHOME_TYPE_TILT@.len());
    assert(SMARTHOME_TYPE_SHUTTER@.len() != SMARTHOME_TYPE_THERMOSTAT@.len());
    assert(SMARTHOME_TYPE_TILT@.len() != SMARTHOME_TYPE_THERMOSTAT@.len());
}

/// Round trip: every node type is recognised from its own tag.
pub proof fn lemma_type_tag_round_trip(t: SmarthomeType)
    ensures
        SmarthomeType::of_tag(t.tag()) == Some(t),
{
    lemma_type_tags_distinct();
    assert(SmarthomeType::Switch.tag() == t.tag() ==> SmarthomeType::Switch == t);
    assert(SmarthomeType::Dimmer.tag() == t.tag() ==> SmarthomeType::Dimmer == t);
    assert(SmarthomeType::Maintenance.tag() == t.tag() ==> SmarthomeType::Maintenance == t);
    assert(SmarthomeType::Contact.tag() == t.tag() ==> SmarthomeType::Contact == t);
    assert(SmarthomeType::Weather.tag() == t.tag() ==> SmarthomeType::Weather == t);
    assert(SmarthomeType::Motion.tag() == t.tag() ==> SmarthomeType::Motion == t);
    assert(SmarthomeType::Button.tag() == t.tag() ==> SmarthomeType::Button == t);
    assert(SmarthomeType::ColorLight.tag() == t.tag() ==> SmarthomeType::ColorLight == t);
    assert(SmarthomeType::LightScene.tag() == t.tag() ==> SmarthomeType::LightScene == t);
    assert(SmarthomeType::Numeric.tag() == t.tag() ==> SmarthomeType::Numeric == t);
    assert(SmarthomeType::Vibration.tag() == t.tag() ==> SmarthomeType::Vibration == t);
    assert(SmarthomeType::Orientation.tag() == t.tag() ==> SmarthomeType::Orientation == t);
    assert(SmarthomeType::WaterSensor.tag() == t.tag() ==> SmarthomeType::WaterSensor == t);
    assert(SmarthomeType::Shutter.tag() == t.tag() ==> SmarthomeType::Shutter == t);
    assert(SmarthomeType::Tilt.tag() == t.tag() ==> SmarthomeType::Tilt == t);
    assert(SmarthomeType::Thermostat.tag() == t.tag() ==> SmarthomeType::Thermostat == t);
}

/// The configuration of one node, by node type.
#[derive(Debug, PartialEq, Clone)]
pub enum SmarthomeProperyConfig {
    Button(ButtonNodeConfig),
    ColorLight(ColorlightNodeConfig),
    Dimmer(DimmerNodeConfig),
    LightScene(LightSceneNodeConfig),
    Maintenance(MaintenanceNodeConfig),
    Motion(MotionNodeConfig),
    Shutter(ShutterNodeConfig),
    Switch(SwitchNodeConfig),
    Thermostat(ThermostatNodeConfig),
    Vibration(VibrationNodeConfig),
    Weather(WeatherNodeConfig),
}

/// The runtime state of one node, by node type.
#[derive(Debug)]
pub enum SmarthomeNode {
    MaintenanceNode(MaintenanceNode),
    SwitchNode(SwitchNode),
    DimmerNode(DimmerNode),
    WeatherNode(WeatherNode),
    ContactNode(ContactNode),
    MotionNode(MotionNode),
    ColorlightNode(ColorlightNode),
    NumericSensorNode(NumericSensorNode),
    WaterSensor(WaterSensorNode),
    ShutterNode(ShutterNode),
    TiltNode(TiltNode),
}

/// Dispatch filtering: a command addressed to another node yields no event
/// from any node type, whatever its property and payload.
pub proof fn lemma_other_node_yields_no_event(
    node: NodeRefView,
    schema: SchemaView,
    property: PropertyRefView,
    payload: Seq<char>,
)
    requires
        property.node != node,
    ensures
        switch_event(dispatch_view(node, schema, property, payload)) is None,
        dimmer_event(dispatch_view(node, schema, property, payload)) is None,
        shutter_event(dispatch_view(node, schema, property, payload)) is None,
        thermostat_event(dispatch_view(node, schema, property, payload)) is None,
        colorlight_event(dispatch_view(node, schema, property, payload)) is None,
        scene_event(dispatch_view(node, schema, property, payload)) is None,
{
}

/// Idempotence: dispatch depends on its inputs alone, so two dispatches of
/// the same command against the same node give the same result, for every
/// node type.
pub proof fn lemma_dispatch_idempotent(
    node: NodeRefView,
    schema: SchemaView,
    property: PropertyRefView,
    payload: Seq<char>,
    first: Option<(Seq<char>, ValueView)>,
    second: Option<(Seq<char>, ValueView)>,
)
    requires
        first == dispatch_view(node, schema, property, payload),
        second == dispatch_view(node, schema, property, payload),
    ensures
        first == second,
        switch_event(first) == switch_event(second),
        dimmer_event(first) == dimmer_event(second),
        shutter_event(first) == shutter_event(second),
        thermostat_event(first) == thermostat_event(second),
        colorlight_event(first) == colorlight_event(second),
        scene_event(first) == scene_event(second),
{
}

} // verus!
