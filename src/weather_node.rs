//! Climate sensor: optional temperature, humidity and pressure.
use vstd::prelude::*;

use crate::dispatch::{NodeRef, NodeRefView, OutboundMessage, outbound, outbound_spec};
use crate::format::{
      DataType, FormatView, NodeSchema, PropertyDescriptor, PropertyView, SchemaView,
      UNIT_DEGREE_CELSIUS, UNIT_KILOPASCAL, UNIT_PERCENT, ValueFormat,
      opt_text, property_spec,
  };
use crate::format::included_iff;
use crate::numeric::{Decimal, integer_text, render_decimal, render_integer};
use crate::SMARTHOME_TYPE_WEATHER;
use crate::validation::schema_valid;

verus! {

pub const WEATHER_NODE_DEFAULT_ID: &'static str = "weather";

pub const WEATHER_NODE_DEFAULT_NAME: &'static str = "Weather clima sensor";

pub const WEATHER_NODE_TEMP_PROP_ID: &'static str = "temperature";

pub const WEATHER_NODE_HUM_PROP_ID: &'static str = "humidity";

pub const WEATHER_NODE_PRES_PROP_ID: &'static str = "pressure";

/// A climate sensor's runtime state.
  #[derive(Debug)]
  pub struct WeatherNode {
      pub publisher: WeatherNodePublisher,
      pub temperature: Option<Decimal>,
      pub humidity: Option<i64>,
      pub pressure: Option<Decimal>,
  }
  
#[derive(Debug, PartialEq, Clone)]
  pub struct WeatherNodeConfig {
      pub temperature: bool,
      pub humidity: bool,
      pub pressure: bool,
      pub temp_unit: String,
  }

  impl Default for WeatherNodeConfig {
      fn default() -> (r: WeatherNodeConfig)
          ensures
              r.temperature && r.humidity && !r.pressure,
              r.temp_unit@ == UNIT_DEGREE_CELSIUS@,
      {
          WeatherNodeConfig {
              temperature: true,
              humidity: true,
              pressure: false,
              temp_unit: UNIT_DEGREE_CELSIUS.to_owned(),
          }
      }
  }

  pub open spec fn temperature_property(config: WeatherNodeConfig) -> PropertyView {
    property_spec(WEATHER_NODE_TEMP_PROP_ID@, "Current temperature"@, DataType::Float)
        .with_unit(config.temp_unit@)
        .with_settable(false)
        .with_retained(true)
}

pub open spec fn humidity_property() -> PropertyView {
    property_spec(WEATHER_NODE_HUM_PROP_ID@, "Current humidity"@, DataType::Integer)
        .with_unit(UNIT_PERCENT@)
        .with_settable(false)
        .with_retained(true)
}

pub open spec fn pressure_property() -> PropertyView {
    property_spec(WEATHER_NODE_PRES_PROP_ID@, "Current pressure"@, DataType::Float)
        .with_unit(UNIT_KILOPASCAL@)
        .with_settable(false)
        .with_retained(true)
}

/// The properties a climate sensor declares, in order; each optional one only where the
/// configuration enables it.
pub open spec fn weather_properties(config: WeatherNodeConfig) -> Seq<PropertyView> {
    let a = Seq::<PropertyView>::empty();
    let decl0 = if config.temperature {
        a.push(temperature_property(config))
    } else {
        a
    };
    let decl1 = if config.humidity {
        decl0.push(humidity_property())
    } else {
        decl0
    };
    let decl2 = if config.pressure {
        decl1.push(pressure_property())
    } else {
        decl1
    };
    decl2
}

/// The schema a climate sensor declares.
pub open spec fn weather_schema(config: WeatherNodeConfig) -> SchemaView {
    SchemaView {
        type_tag: SMARTHOME_TYPE_WEATHER@,
        name: Some(WEATHER_NODE_DEFAULT_NAME@),
        properties: weather_properties(config),
    }
}

pub struct WeatherNodeBuilder {
    node_builder: NodeSchema,
}

impl View for WeatherNodeBuilder {
    type V = SchemaView;

    closed spec fn view(&self) -> SchemaView {
        self.node_builder@
    }
}

impl WeatherNodeBuilder {
    pub fn new(config: &WeatherNodeConfig) -> (r: WeatherNodeBuilder)
        ensures
            r@ == weather_schema(*config),
    {
        let mut schema = NodeSchema::new(SMARTHOME_TYPE_WEATHER, WEATHER_NODE_DEFAULT_NAME);
        if config.temperature {
            schema.add_property(
                PropertyDescriptor::new(
                    WEATHER_NODE_TEMP_PROP_ID,
                    "Current temperature",
                    DataType::Float,
                )
                    .unit(config.temp_unit.as_str())
                    .settable(false)
                    .retained(true),
            );
        }
        if config.humidity {
            schema.add_property(
                PropertyDescriptor::new(
                    WEATHER_NODE_HUM_PROP_ID,
                    "Current humidity",
                    DataType::Integer,
                )
                    .unit(UNIT_PERCENT)
                    .settable(false)
                    .retained(true),
            );
        }
        if config.pressure {
            schema.add_property(
                PropertyDescriptor::new(
                    WEATHER_NODE_PRES_PROP_ID,
                    "Current pressure",
                    DataType::Float,
                )
                    .unit(UNIT_KILOPASCAL)
                    .settable(false)
                    .retained(true),
            );
        }
        assert(schema@.properties =~= weather_properties(*config));
        WeatherNodeBuilder { node_builder: schema }
    }

    /// Replaces the node's display name.
    pub fn name(self, name: Option<String>) -> (r: WeatherNodeBuilder)
        ensures
            r@ == self@.named(opt_text(name)),
    {
        let mut schema = self.node_builder;
        schema.set_name(name);
        WeatherNodeBuilder { node_builder: schema }
    }

    pub fn build(self) -> (r: NodeSchema)
        ensures
            r@ == self@,
    {
        self.node_builder
    }

    /// The schema, and a publisher for the node at the given address.
    pub fn build_with_publisher(self, node: NodeRef) -> (r: (NodeSchema, WeatherNodePublisher))
        ensures
            r.0@ == self@,
            r.1.node_ref() == node@,
    {
        (self.node_builder, WeatherNodePublisher::new(node))
    }
}

/// A climate sensor instance: publishes its values.
#[derive(Debug)]
pub struct WeatherNodePublisher {
    node: NodeRef,
}

impl WeatherNodePublisher {
    pub closed spec fn node_ref(&self) -> NodeRefView {
        self.node@
    }

    pub fn new(node: NodeRef) -> (r: WeatherNodePublisher)
        ensures
            r.node_ref() == node@,
    {
        WeatherNodePublisher { node }
    }

    /// Publishes the temperature.
    pub fn temperature(&self, value: Decimal) -> (r: OutboundMessage)
        ensures
            r@ == outbound_spec(
                self.node_ref(),
                WEATHER_NODE_TEMP_PROP_ID@,
                value.text(),
                true,
                false,
            ),
    {
        outbound(&self.node, WEATHER_NODE_TEMP_PROP_ID, render_decimal(value), true, false)
    }

    /// Publishes the humidity.
    pub fn humidity(&self, value: i64) -> (r: OutboundMessage)
        ensures
            r@ == outbound_spec(
                self.node_ref(),
                WEATHER_NODE_HUM_PROP_ID@,
                integer_text(value as int),
                true,
                false,
            ),
    {
        outbound(&self.node, WEATHER_NODE_HUM_PROP_ID, render_integer(value), true, false)
    }

    /// Publishes the pressure.
    pub fn pressure(&self, value: Decimal) -> (r: OutboundMessage)
        ensures
            r@ == outbound_spec(
                self.node_ref(),
                WEATHER_NODE_PRES_PROP_ID@,
                value.text(),
                true,
                false,
            ),
    {
        outbound(&self.node, WEATHER_NODE_PRES_PROP_ID, render_decimal(value), true, false)
    }
}

proof fn lemma_weather_ids_distinct()
    ensures
        WEATHER_NODE_TEMP_PROP_ID@ != WEATHER_NODE_HUM_PROP_ID@,
        WEATHER_NODE_TEMP_PROP_ID@ != WEATHER_NODE_PRES_PROP_ID@,
        WEATHER_NODE_HUM_PROP_ID@ != WEATHER_NODE_PRES_PROP_ID@,
{
    reveal_strlit("temperature");
    reveal_strlit("humidity");
    reveal_strlit("pressure");
    assert(WEATHER_NODE_TEMP_PROP_ID@.len() != WEATHER_NODE_HUM_PROP_ID@.len());
    assert(WEATHER_NODE_TEMP_PROP_ID@.len() != WEATHER_NODE_PRES_PROP_ID@.len());
    assert(WEATHER_NODE_HUM_PROP_ID@[0] != WEATHER_NODE_PRES_PROP_ID@[0]);
}

/// Conditional inclusion: each optional property of a climate sensor is in
/// the schema exactly once, with its declared format, when the configuration
/// enables it, and its id is absent when the configuration disables it.
pub proof fn lemma_weather_optional_properties(config: WeatherNodeConfig)
    ensures
        included_iff(weather_properties(config), temperature_property(config), config.temperature),
        included_iff(weather_properties(config), humidity_property(), config.humidity),
        included_iff(weather_properties(config), pressure_property(), config.pressure),
{
    lemma_weather_ids_distinct();
    let props = weather_properties(config);
    let c0: int = if config.temperature {
        1
    } else {
        0
    };
    let at0: int = 0int;
    if config.temperature {
        assert(props[at0] == temperature_property(config));
    }
    let c1: int = if config.humidity {
        1
    } else {
        0
    };
    let at1: int = 0int + c0;
    if config.humidity {
        assert(props[at1] == humidity_property());
    }
    let c2: int = if config.pressure {
        1
    } else {
        0
    };
    let at2: int = 0int + c0 + c1;
    if config.pressure {
        assert(props[at2] == pressure_property());
    }
    assert(props.len() == 0int + c0 + c1 + c2);
    assert forall|j: int| 0 <= j < props.len() implies props[j].id == (if j == at0 && c0 == 1 {
        WEATHER_NODE_TEMP_PROP_ID@
    } else if j == at1 && c1 == 1 {
        WEATHER_NODE_HUM_PROP_ID@
    } else {
        WEATHER_NODE_PRES_PROP_ID@
    }) by {}
}

/// Every climate sensor schema passes the schema checks: valid, distinct ids
/// and formats that suit their datatypes and admit a value.
pub proof fn lemma_weather_schema_valid(config: WeatherNodeConfig)
    ensures
        schema_valid(weather_schema(config)),
{
    lemma_weather_ids_distinct();
    reveal_strlit("temperature");
    reveal_strlit("humidity");
    reveal_strlit("pressure");
    reveal_with_fuel(crate::validation::id_chars, 12);
    reveal_with_fuel(crate::validation::first_problem, 4);
    let props = weather_properties(config);
    let c0: int = if config.temperature {
        1
    } else {
        0
    };
    if config.temperature {
        assert(props[0int] == temperature_property(config));
    }
    let c1: int = if config.humidity {
        1
    } else {
        0
    };
    if config.humidity {
        assert(props[0int + c0] == humidity_property());
    }
    let c2: int = if config.pressure {
        1
    } else {
        0
    };
    if config.pressure {
        assert(props[0int + c0 + c1] == pressure_property());
    }
    assert(props.len() == 0int + c0 + c1 + c2);
}

} // verus!
