use hc_smarthome::button_node::{ButtonNodeActions, ButtonNodeBuilder, ButtonNodeConfig};
use hc_smarthome::codec::ColorValue;
use hc_smarthome::colorlight_node::{
    ColorlightNodeBuilder, ColorlightNodeConfig, ColorlightNodeSetEvents,
};
use hc_smarthome::contact_node::ContactNodeBuilder;
use hc_smarthome::dimmer_node::{
    DimmerNodeActions, DimmerNodeBuilder, DimmerNodeConfig, DimmerNodeSetEvents,
};
use hc_smarthome::dispatch::{NodeRef, PropertyRef, PropertySet};
use hc_smarthome::format::{DataType, FloatRange, IntegerRange, NodeSchema, ValueFormat};
use hc_smarthome::light_scene_node::{
    LightSceneNodeActions, LightSceneNodeBuilder, LightSceneNodeConfig,
};
use hc_smarthome::maintenance_node::{MaintenanceNodeBuilder, MaintenanceNodeConfig};
use hc_smarthome::motion_node::{MotionNodeBuilder, MotionNodeConfig};
use hc_smarthome::numeric::Decimal;
use hc_smarthome::numeric_sensor_node::{NumericSensorNodeBuilder, NumericSensorType};
use hc_smarthome::powermeter_node::{PowermeterNodeBuilder, PowermeterNodeConfig};
use hc_smarthome::shutter_node::{
    ShutterNodeActions, ShutterNodeBuilder, ShutterNodeConfig, ShutterNodeSetEvents,
};
use hc_smarthome::switch_node::{
    SwitchNodeActions, SwitchNodeBuilder, SwitchNodeConfig, SwitchNodeSetEvents,
};
use hc_smarthome::thermostat_node::{
    ThermostatNodeBuilder, ThermostatNodeConfig, ThermostatNodeModes, ThermostatNodeSetEvents,
};
use hc_smarthome::weather_node::{WeatherNodeBuilder, WeatherNodeConfig};
use hc_smarthome::{SmarthomeType, SMARTHOME_TYPE_SWITCH};

fn node(id: &str) -> NodeRef {
    NodeRef::new("homie", "dev-1", id)
}

fn prop(node_id: &str, prop_id: &str) -> PropertyRef {
    PropertyRef::new(node(node_id), prop_id)
}

fn ids(schema: &NodeSchema) -> Vec<String> {
    schema.properties.iter().map(|p| p.id.clone()).collect()
}

#[test]
fn switch_state_on_dispatches_state_changed() {
    let (schema, publisher) =
        SwitchNodeBuilder::new(&SwitchNodeConfig::default()).build_with_publisher(node("switch"));
    assert_eq!(schema.type_tag, SMARTHOME_TYPE_SWITCH);
    assert_eq!(
        schema.properties[0].format,
        ValueFormat::BooleanWords { false_word: "off".to_string(), true_word: "on".to_string() }
    );
    assert_eq!(
        publisher.match_parse(&prop("switch", "state"), "on"),
        Some(SwitchNodeSetEvents::State(true))
    );
    assert_eq!(
        publisher.match_parse(&prop("switch", "state"), "off"),
        Some(SwitchNodeSetEvents::State(false))
    );
    assert_eq!(
        publisher.match_parse(&prop("switch", "action"), "toggle"),
        Some(SwitchNodeSetEvents::Action(SwitchNodeActions::Toggle))
    );
    assert_eq!(publisher.match_parse(&prop("switch", "state"), "true"), None);
    assert_eq!(publisher.match_parse(&prop("switch", "brightness"), "on"), None);
}

#[test]
fn dispatch_ignores_other_nodes() {
    let (_, publisher) =
        SwitchNodeBuilder::new(&SwitchNodeConfig::default()).build_with_publisher(node("switch"));
    for payload in ["on", "off", "toggle", "", "garbage"] {
        assert_eq!(publisher.match_parse(&prop("switch2", "state"), payload), None);
        assert_eq!(publisher.match_parse(&prop("switch2", "action"), payload), None);
    }
    let other_device = PropertyRef::new(NodeRef::new("homie", "dev-2", "switch"), "state");
    assert_eq!(publisher.match_parse(&other_device, "on"), None);
}

#[test]
fn dispatch_twice_gives_equal_results() {
    let (_, publisher) =
        DimmerNodeBuilder::new(&DimmerNodeConfig::default()).build_with_publisher(node("dimmer"));
    for payload in ["42", "150", "brighter", "x"] {
        for prop_id in ["brightness", "action"] {
            let first = publisher.match_parse(&prop("dimmer", prop_id), payload);
            let second = publisher.match_parse(&prop("dimmer", prop_id), payload);
            assert_eq!(first, second);
        }
    }
}

#[test]
fn dimmer_out_of_range_is_dropped() {
    let (_, publisher) =
        DimmerNodeBuilder::new(&DimmerNodeConfig::default()).build_with_publisher(node("dimmer"));
    assert_eq!(publisher.match_parse(&prop("dimmer", "brightness"), "150"), None);
    assert_eq!(
        publisher.match_parse(&prop("dimmer", "brightness"), "42"),
        Some(DimmerNodeSetEvents::Brightness(42))
    );
    assert_eq!(
        publisher.match_parse(&prop("dimmer", "action"), "darker"),
        Some(DimmerNodeSetEvents::Action(DimmerNodeActions::Darker))
    );
    let msg = publisher.brightness_target(55);
    assert_eq!(msg.payload, "55");
    assert!(msg.target && msg.retained);
    assert_eq!(msg.property, prop("dimmer", "brightness"));
}

#[test]
fn shutter_without_stop() {
    let (schema, publisher) = ShutterNodeBuilder::new(&ShutterNodeConfig { can_stop: false })
        .build_with_publisher(node("shutter"));
    assert_eq!(
        schema.properties[1].format,
        ValueFormat::EnumSet(vec!["up".to_string(), "down".to_string()])
    );
    assert_eq!(publisher.match_parse(&prop("shutter", "action"), "stop"), None);
    assert_eq!(
        publisher.match_parse(&prop("shutter", "action"), "up"),
        Some(ShutterNodeSetEvents::Action(ShutterNodeActions::Up))
    );
    let (schema, publisher) =
        ShutterNodeBuilder::new(&ShutterNodeConfig::default()).build_with_publisher(
            node("shutter")
        );
    assert_eq!(
        schema.properties[1].format,
        ValueFormat::EnumSet(vec!["up".to_string(), "down".to_string(), "stop".to_string()])
    );
    assert_eq!(
        publisher.match_parse(&prop("shutter", "action"), "stop"),
        Some(ShutterNodeSetEvents::Action(ShutterNodeActions::Stop))
    );
}

#[test]
fn thermostat_optional_properties() {
    let full = ThermostatNodeBuilder::new(&ThermostatNodeConfig::default()).build();
    assert_eq!(ids(&full), vec!["set-temperature", "valve", "windowopen", "boost-state", "mode"]);
    let valve: Vec<_> = full.properties.iter().filter(|p| p.id == "valve").collect();
    assert_eq!(valve.len(), 1);
    assert_eq!(
        valve[0].format,
        ValueFormat::IntegerRange(IntegerRange { min: Some(0), max: Some(100), step: None })
    );
    assert_eq!(
        full.properties[4].format,
        ValueFormat::EnumSet(vec!["auto".to_string(), "manual".to_string()]),
    );
    let config = ThermostatNodeConfig {
        valve: false,
        mode: false,
        ..ThermostatNodeConfig::default()
    };
    let reduced = ThermostatNodeBuilder::new(&config).build();
    assert_eq!(ids(&reduced), vec!["set-temperature", "windowopen", "boost-state"]);
}

#[test]
fn thermostat_events() {
    let (_, publisher) = ThermostatNodeBuilder::new(&ThermostatNodeConfig::default())
        .build_with_publisher(node("thermostat"));
    assert_eq!(
        publisher.match_parse(&prop("thermostat", "set-temperature"), "21.5"),
        Some(ThermostatNodeSetEvents::SetTemperature(Decimal { mantissa: 215, scale: 1 }))
    );
    assert_eq!(publisher.match_parse(&prop("thermostat", "set-temperature"), "40"), None);
    assert_eq!(
        publisher.match_parse(&prop("thermostat", "mode"), "manual"),
        Some(ThermostatNodeSetEvents::Mode(ThermostatNodeModes::Manual))
    );
    assert_eq!(publisher.match_parse(&prop("thermostat", "mode"), "party"), None);
    assert_eq!(publisher.windowopen(true).payload, "open");
    assert_eq!(publisher.set_temperature(Decimal { mantissa: 205, scale: 1 }).payload, "20.5");
    assert_eq!(ThermostatNodeModes::try_from("fan-only"), Ok(ThermostatNodeModes::FanOnly));
    assert_eq!(ThermostatNodeModes::EmergencyHeating.as_str(), "emergency-heating");
    let config = ThermostatNodeConfig {
        temp_range: FloatRange { min: None, max: None, step: None },
        ..ThermostatNodeConfig::default()
    };
    let schema = ThermostatNodeBuilder::new(&config).build();
    assert_eq!(schema.properties[0].datatype, DataType::Float);
}

#[test]
fn colorlight_events() {
    let (schema, publisher) = ColorlightNodeBuilder::new(&ColorlightNodeConfig::default())
        .build_with_publisher(node("colorlight"));
    assert_eq!(schema.name, Some("colorlight".to_string()));
    assert_eq!(
        publisher.match_parse(&prop("colorlight", "color"), "rgb,10,20,30"),
        Some(ColorlightNodeSetEvents::Color(ColorValue::Rgb(10, 20, 30)))
    );
    assert_eq!(publisher.match_parse(&prop("colorlight", "color"), "hsv,10,20,30"), None);
    assert_eq!(
        publisher.match_parse(&prop("colorlight", "color-temperature"), "200"),
        Some(ColorlightNodeSetEvents::ColorTemperature(200))
    );
    assert_eq!(publisher.match_parse(&prop("colorlight", "color-temperature"), "100"), None);
    assert_eq!(publisher.color(ColorValue::Hsv(1, 2, 3)).payload, "hsv,1,2,3");
}

#[test]
fn light_scene_recall() {
    let config = LightSceneNodeConfig {
        scenes: vec!["evening".to_string(), "tv".to_string()],
        settable: true,
    };
    let (_, publisher) = LightSceneNodeBuilder::new(&config).build_with_publisher(node("scenes"));
    assert_eq!(
        publisher.match_parse_event(
            &PropertySet { property: prop("scenes", "recall"), set_value: "tv".to_string() }
        ),
        Some(LightSceneNodeActions::Recall("tv".to_string()))
    );
    assert_eq!(publisher.match_parse(&prop("scenes", "recall"), "party"), None);
    assert!(publisher.recall(&LightSceneNodeActions::Recall("evening".to_string())).is_some());
    assert!(publisher.recall(&LightSceneNodeActions::Recall("party".to_string())).is_none());
}

#[test]
fn maintenance_publishing() {
    let (schema, publisher) = MaintenanceNodeBuilder::new(&MaintenanceNodeConfig::default())
        .build_with_publisher(node("maintenance"));
    assert_eq!(ids(&schema), vec!["low-battery", "last-update", "reachable"]);
    assert_eq!(publisher.low_battery(true).unwrap().payload, "true");
    assert!(publisher.battery_level(50).is_none());
    let stamp = publisher.last_update(0).unwrap();
    assert_eq!(stamp.payload, "1970-01-01T00:00:00.000Z");
    let stamp = publisher.last_update(1_517_000_000_123).unwrap();
    assert_eq!(stamp.payload, "2018-01-26T20:53:20.123Z");
    assert!(publisher.last_update(i64::MAX).is_none());
    assert!(publisher.last_update(8_000_000_000_000_000).is_some());
    assert!(publisher.last_update(-8_000_000_000_000_000).is_some());
}

#[test]
fn sensor_schemas() {
    let motion = MotionNodeBuilder::new(&MotionNodeConfig { lux: true }).build();
    assert_eq!(ids(&motion), vec!["motion", "lux"]);
    let motion = MotionNodeBuilder::new(&MotionNodeConfig::default()).build();
    assert_eq!(ids(&motion), vec!["motion"]);
    let weather = WeatherNodeBuilder::new(&WeatherNodeConfig::default()).build();
    assert_eq!(ids(&weather), vec!["temperature", "humidity"]);
    let power = PowermeterNodeBuilder::new(&PowermeterNodeConfig::default()).build();
    assert_eq!(ids(&power), vec!["power", "current", "voltage", "consumption"]);
    let contact = ContactNodeBuilder::new().name(Some("Door".to_string())).build();
    assert_eq!(contact.name, Some("Door".to_string()));
    assert_eq!(ids(&contact), vec!["state"]);
}

#[test]
fn numeric_sensor_types() {
    assert_eq!(
        NumericSensorType::GasCO2.make_smarthome_type(),
        "homie-homecontrol/v1/type=numeric-gas-co2"
    );
    assert_eq!(NumericSensorType::Generic.default_node_name(), "numeric-sensor");
    assert_eq!(NumericSensorType::Light.default_node_name(), "light");
    let schema = NumericSensorNodeBuilder::for_type(NumericSensorType::Temperature).build();
    assert_eq!(schema.properties[0].name, "Sensor value (temperature)");
    assert_eq!(schema.properties[0].unit, Some("°C".to_string()));
    assert_eq!(schema.properties[0].datatype, DataType::Float);
    let generic = NumericSensorNodeBuilder::new().build();
    assert_eq!(generic.properties[0].datatype, DataType::Integer);
    assert_eq!(generic.properties[0].unit, None);
}

#[test]
fn button_actions() {
    assert_eq!(ButtonNodeActions::to_string_vec(), vec!["press".to_string()]);
    assert_eq!(ButtonNodeActions::LongPress.as_str(), "long-press");
    let config = ButtonNodeConfig {
        actions: vec![ButtonNodeActions::Press, ButtonNodeActions::DoublePress],
    };
    let (schema, publisher) = ButtonNodeBuilder::new(&config).build_with_publisher(node("button"));
    assert_eq!(
        schema.properties[0].format,
        ValueFormat::EnumSet(vec!["press".to_string(), "double-press".to_string()])
    );
    assert_eq!(publisher.action(&ButtonNodeActions::DoublePress).payload, "double-press");
}

#[test]
fn smarthome_type_tags() {
    assert_eq!(SmarthomeType::Switch.as_str(), "homie-homecontrol/v1/type=switch");
    assert_eq!(SmarthomeType::WaterSensor.as_str(), "homie-homecontrol/v1/type=water");
    assert_eq!(
        SmarthomeType::from_constant("homie-homecontrol/v1/type=tilt"),
        Some(SmarthomeType::Tilt),
    );
    assert_eq!(SmarthomeType::from_constant("switch"), None);
    assert_eq!(SmarthomeType::from_str("nope"), Err(()));
}
