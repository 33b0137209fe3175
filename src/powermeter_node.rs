//! Power meter: power, and optionally current, voltage, frequency and
//! consumption, all non-negative.
use vstd::prelude::*;

use crate::dispatch::{NodeRef, NodeRefView, OutboundMessage, outbound, outbound_spec};
use crate::format::{
      DataType, FloatRange, FormatView, NodeSchema, PropertyDescriptor, PropertyView, SchemaView,
      UNIT_HERTZ, UNIT_MILLIAMPERE, UNIT_VOLT, UNIT_WATT, ValueFormat,
      opt_text, property_spec,
  };
use crate::format::included_iff;
use crate::numeric::{Decimal, render_decimal};
use crate::SMARTHOME_TYPE_POWERMETER;
use crate::validation::schema_valid;

verus! {

pub const POWERMETER_NODE_DEFAULT_ID: &'static str = "powermeter";

pub const POWERMETER_NODE_DEFAULT_NAME: &'static str = "Powermeter";

pub const POWERMETER_NODE_POWER_PROP_ID: &'static str = "power";

pub const POWERMETER_NODE_CURRENT_PROP_ID: &'static str = "current";

pub const POWERMETER_NODE_VOLTAGE_PROP_ID: &'static str = "voltage";

pub const POWERMETER_NODE_FREQUENCY_PROP_ID: &'static str = "frequency";

pub const POWERMETER_NODE_CONSUMPTION_PROP_ID: &'static str = "consumption";

/// A power meter's runtime state.
  #[derive(Debug)]
  pub struct PowermeterNode {
      pub publisher: PowermeterNodePublisher,
      pub power: Decimal,
      pub current: Option<Decimal>,
      pub voltage: Option<Decimal>,
      pub frequency: Option<Decimal>,
      pub consumption: Option<Decimal>,
  }
  
#[derive(Debug, PartialEq, Eq, Clone, Copy, Structural)]
  pub struct PowermeterNodeConfig {
      pub current: bool,
      pub voltage: bool,
      pub frequency: bool,
      pub consumption: bool,
  }

  impl Default for PowermeterNodeConfig {
      fn default() -> (r: PowermeterNodeConfig)
          ensures
              r.current && r.voltage && !r.frequency && r.consumption,
      {
          PowermeterNodeConfig { current: true, voltage: true, frequency: false, consumption: true }
      }
  }

  pub open spec fn power_property() -> PropertyView {
    property_spec(POWERMETER_NODE_POWER_PROP_ID@, "Power"@, DataType::Float)
        .with_format(
            FormatView::FloatRange(
                FloatRange { min: Some(Decimal { mantissa: 0, scale: 0 }), max: None, step: None }
            )
        )
        .with_unit(UNIT_WATT@)
        .with_settable(false)
        .with_retained(true)
}

pub open spec fn current_property() -> PropertyView {
    property_spec(POWERMETER_NODE_CURRENT_PROP_ID@, "Current"@, DataType::Float)
        .with_format(
            FormatView::FloatRange(
                FloatRange { min: Some(Decimal { mantissa: 0, scale: 0 }), max: None, step: None }
            )
        )
        .with_unit(UNIT_MILLIAMPERE@)
        .with_settable(false)
        .with_retained(true)
}

pub open spec fn voltage_property() -> PropertyView {
    property_spec(POWERMETER_NODE_VOLTAGE_PROP_ID@, "Voltage"@, DataType::Float)
        .with_format(
            FormatView::FloatRange(
                FloatRange { min: Some(Decimal { mantissa: 0, scale: 0 }), max: None, step: None }
            )
        )
        .with_unit(UNIT_VOLT@)
        .with_settable(false)
        .with_retained(true)
}

pub open spec fn frequency_property() -> PropertyView {
    property_spec(POWERMETER_NODE_FREQUENCY_PROP_ID@, "Frequency"@, DataType::Float)
        .with_format(
            FormatView::FloatRange(
                FloatRange { min: Some(Decimal { mantissa: 0, scale: 0 }), max: None, step: None }
            )
        )
        .with_unit(UNIT_HERTZ@)
        .with_settable(false)
        .with_retained(true)
}

pub open spec fn consumption_property() -> PropertyView {
    property_spec(POWERMETER_NODE_CONSUMPTION_PROP_ID@, "Consumption"@, DataType::Float)
        .with_format(
            FormatView::FloatRange(
                FloatRange { min: Some(Decimal { mantissa: 0, scale: 0 }), max: None, step: None }
            )
        )
        .with_unit("wH"@)
        .with_settable(false)
        .with_retained(true)
}

/// The properties a power meter declares, in order; each optional one only where the configuration
/// enables it.
pub open spec fn powermeter_properties(config: PowermeterNodeConfig) -> Seq<PropertyView> {
    let a = Seq::<PropertyView>::empty();
    let decl0 = a.push(power_property());
    let decl1 = if config.current {
        decl0.push(current_property())
    } else {
        decl0
    };
    let decl2 = if config.voltage {
        decl1.push(voltage_property())
    } else {
        decl1
    };
    let decl3 = if config.frequency {
        decl2.push(frequency_property())
    } else {
        decl2
    };
    let decl4 = if config.consumption {
        decl3.push(consumption_property())
    } else {
        decl3
    };
    decl4
}

/// The schema a power meter declares.
pub open spec fn powermeter_schema(config: PowermeterNodeConfig) -> SchemaView {
    SchemaView {
        type_tag: SMARTHOME_TYPE_POWERMETER@,
        name: Some(POWERMETER_NODE_DEFAULT_NAME@),
        properties: powermeter_properties(config),
    }
}

pub struct PowermeterNodeBuilder {
    node_builder: NodeSchema,
}

impl View for PowermeterNodeBuilder {
    type V = SchemaView;

    closed spec fn view(&self) -> SchemaView {
        self.node_builder@
    }
}

impl Default for PowermeterNodeBuilder {
    fn default() -> (r: PowermeterNodeBuilder)
        ensures
            r@ == powermeter_schema(
                (
                    PowermeterNodeConfig {
                        current: true,
                        voltage: true,
                        frequency: false,
                        consumption: true,
                    }
                )
            ),
    {
        PowermeterNodeBuilder::new(&PowermeterNodeConfig::default())
    }
}

impl PowermeterNodeBuilder {
    pub fn new(config: &PowermeterNodeConfig) -> (r: PowermeterNodeBuilder)
        ensures
            r@ == powermeter_schema(*config),
    {
        let mut schema = NodeSchema::new(SMARTHOME_TYPE_POWERMETER, POWERMETER_NODE_DEFAULT_NAME);
        schema.add_property(
            PropertyDescriptor::new(POWERMETER_NODE_POWER_PROP_ID, "Power", DataType::Float)
                .format(
                    ValueFormat::FloatRange(
                        FloatRange {
                            min: Some(Decimal { mantissa: 0, scale: 0 }),
                            max: None,
                            step: None,
                        }
                    )
                )
                .unit(UNIT_WATT)
                .settable(false)
                .retained(true),
        );
        if config.current {
            schema.add_property(
                PropertyDescriptor::new(POWERMETER_NODE_CURRENT_PROP_ID, "Current", DataType::Float)
                    .format(
                        ValueFormat::FloatRange(
                            FloatRange {
                                min: Some(Decimal { mantissa: 0, scale: 0 }),
                                max: None,
                                step: None,
                            }
                        )
                    )
                    .unit(UNIT_MILLIAMPERE)
                    .settable(false)
                    .retained(true),
            );
        }
        if config.voltage {
            schema.add_property(
                PropertyDescriptor::new(POWERMETER_NODE_VOLTAGE_PROP_ID, "Voltage", DataType::Float)
                    .format(
                        ValueFormat::FloatRange(
                            FloatRange {
                                min: Some(Decimal { mantissa: 0, scale: 0 }),
                                max: None,
                                step: None,
                            }
                        )
                    )
                    .unit(UNIT_VOLT)
                    .settable(false)
                    .retained(true),
            );
        }
        if config.frequency {
            schema.add_property(
                PropertyDescriptor::new(
                    POWERMETER_NODE_FREQUENCY_PROP_ID,
                    "Frequency",
                    DataType::Float,
                )
                    .format(
                        ValueFormat::FloatRange(
                            FloatRange {
                                min: Some(Decimal { mantissa: 0, scale: 0 }),
                                max: None,
                                step: None,
                            }
                        )
                    )
                    .unit(UNIT_HERTZ)
                    .settable(false)
                    .retained(true),
            );
        }
        if config.consumption {
            schema.add_property(
                PropertyDescriptor::new(
                    POWERMETER_NODE_CONSUMPTION_PROP_ID,
                    "Consumption",
                    DataType::Float,
                )
                    .format(
                        ValueFormat::FloatRange(
                            FloatRange {
                                min: Some(Decimal { mantissa: 0, scale: 0 }),
                                max: None,
                                step: None,
                            }
                        )
                    )
                    .unit("wH")
                    .settable(false)
                    .retained(true),
            );
        }
        assert(schema@.properties =~= powermeter_properties(*config));
        PowermeterNodeBuilder { node_builder: schema }
    }

    /// Replaces the node's display name.
    pub fn name(self, name: Option<String>) -> (r: PowermeterNodeBuilder)
        ensures
            r@ == self@.named(opt_text(name)),
    {
        let mut schema = self.node_builder;
        schema.set_name(name);
        PowermeterNodeBuilder { node_builder: schema }
    }

    pub fn build(self) -> (r: NodeSchema)
        ensures
            r@ == self@,
    {
        self.node_builder
    }

    /// The schema, and a publisher for the node at the given address.
    pub fn build_with_publisher(self, node: NodeRef) -> (r: (NodeSchema, PowermeterNodePublisher))
        ensures
            r.0@ == self@,
            r.1.node_ref() == node@,
    {
        (self.node_builder, PowermeterNodePublisher::new(node))
    }
}

/// A power meter instance: publishes its values.
#[derive(Debug)]
pub struct PowermeterNodePublisher {
    node: NodeRef,
}

impl PowermeterNodePublisher {
    pub closed spec fn node_ref(&self) -> NodeRefView {
        self.node@
    }

    pub fn new(node: NodeRef) -> (r: PowermeterNodePublisher)
        ensures
            r.node_ref() == node@,
    {
        PowermeterNodePublisher { node }
    }

    /// Publishes the power.
    pub fn power(&self, value: Decimal) -> (r: OutboundMessage)
        ensures
            r@ == outbound_spec(
                self.node_ref(),
                POWERMETER_NODE_POWER_PROP_ID@,
                value.text(),
                true,
                false,
            ),
    {
        outbound(&self.node, POWERMETER_NODE_POWER_PROP_ID, render_decimal(value), true, false)
    }

    /// Publishes the current.
    pub fn current(&self, value: Decimal) -> (r: OutboundMessage)
        ensures
            r@ == outbound_spec(
                self.node_ref(),
                POWERMETER_NODE_CURRENT_PROP_ID@,
                value.text(),
                true,
                false,
            ),
    {
        outbound(&self.node, POWERMETER_NODE_CURRENT_PROP_ID, render_decimal(value), true, false)
    }

    /// Publishes the voltage.
    pub fn voltage(&self, value: Decimal) -> (r: OutboundMessage)
        ensures
            r@ == outbound_spec(
                self.node_ref(),
                POWERMETER_NODE_VOLTAGE_PROP_ID@,
                value.text(),
                true,
                false,
            ),
    {
        outbound(&self.node, POWERMETER_NODE_VOLTAGE_PROP_ID, render_decimal(value), true, false)
    }

    /// Publishes the frequency.
    pub fn frequency(&self, value: Decimal) -> (r: OutboundMessage)
        ensures
            r@ == outbound_spec(
                self.node_ref(),
                POWERMETER_NODE_FREQUENCY_PROP_ID@,
                value.text(),
                true,
                false,
            ),
    {
        outbound(&self.node, POWERMETER_NODE_FREQUENCY_PROP_ID, render_decimal(value), true, false)
    }

    /// Publishes the consumption.
    pub fn consumption(&self, value: Decimal) -> (r: OutboundMessage)
        ensures
            r@ == outbound_spec(
                self.node_ref(),
                POWERMETER_NODE_CONSUMPTION_PROP_ID@,
                value.text(),
                true,
                false,
            ),
    {
        outbound(
            &self.node,
            POWERMETER_NODE_CONSUMPTION_PROP_ID,
            render_decimal(value),
            true,
            false,
        )
    }
}

proof fn lemma_powermeter_ids_distinct()
    ensures
        POWERMETER_NODE_POWER_PROP_ID@ != POWERMETER_NODE_CURRENT_PROP_ID@,
        POWERMETER_NODE_POWER_PROP_ID@ != POWERMETER_NODE_VOLTAGE_PROP_ID@,
        POWERMETER_NODE_POWER_PROP_ID@ != POWERMETER_NODE_FREQUENCY_PROP_ID@,
        POWERMETER_NODE_POWER_PROP_ID@ != POWERMETER_NODE_CONSUMPTION_PROP_ID@,
        POWERMETER_NODE_CURRENT_PROP_ID@ != POWERMETER_NODE_VOLTAGE_PROP_ID@,
        POWERMETER_NODE_CURRENT_PROP_ID@ != POWERMETER_NODE_FREQUENCY_PROP_ID@,
        POWERMETER_NODE_CURRENT_PROP_ID@ != POWERMETER_NODE_CONSUMPTION_PROP_ID@,
        POWERMETER_NODE_VOLTAGE_PROP_ID@ != POWERMETER_NODE_FREQUENCY_PROP_ID@,
        POWERMETER_NODE_VOLTAGE_PROP_ID@ != POWERMETER_NODE_CONSUMPTION_PROP_ID@,
        POWERMETER_NODE_FREQUENCY_PROP_ID@ != POWERMETER_NODE_CONSUMPTION_PROP_ID@,
{
    reveal_strlit("power");
    reveal_strlit("current");
    reveal_strlit("voltage");
    reveal_strlit("frequency");
    reveal_strlit("consumption");
    assert(POWERMETER_NODE_POWER_PROP_ID@.len() != POWERMETER_NODE_CURRENT_PROP_ID@.len());
    assert(POWERMETER_NODE_POWER_PROP_ID@.len() != POWERMETER_NODE_VOLTAGE_PROP_ID@.len());
    assert(POWERMETER_NODE_POWER_PROP_ID@.len() != POWERMETER_NODE_FREQUENCY_PROP_ID@.len());
    assert(POWERMETER_NODE_POWER_PROP_ID@.len() != POWERMETER_NODE_CONSUMPTION_PROP_ID@.len());
    assert(POWERMETER_NODE_CURRENT_PROP_ID@[0] != POWERMETER_NODE_VOLTAGE_PROP_ID@[0]);
    assert(POWERMETER_NODE_CURRENT_PROP_ID@.len() != POWERMETER_NODE_FREQUENCY_PROP_ID@.len());
    assert(POWERMETER_NODE_CURRENT_PROP_ID@.len() != POWERMETER_NODE_CONSUMPTION_PROP_ID@.len());
    assert(POWERMETER_NODE_VOLTAGE_PROP_ID@.len() != POWERMETER_NODE_FREQUENCY_PROP_ID@.len());
    assert(POWERMETER_NODE_VOLTAGE_PROP_ID@.len() != POWERMETER_NODE_CONSUMPTION_PROP_ID@.len());
    assert(POWERMETER_NODE_FREQUENCY_PROP_ID@.len() != POWERMETER_NODE_CONSUMPTION_PROP_ID@.len());
}

/// Conditional inclusion: each optional property of a power meter is in
/// the schema exactly once, with its declared format, when the configuration
/// enables it, and its id is absent when the configuration disables it.
pub proof fn lemma_powermeter_optional_properties(config: PowermeterNodeConfig)
    ensures
        included_iff(powermeter_properties(config), current_property(), config.current),
        included_iff(powermeter_properties(config), voltage_property(), config.voltage),
        included_iff(powermeter_properties(config), frequency_property(), config.frequency),
        included_iff(powermeter_properties(config), consumption_property(), config.consumption),
{
    lemma_powermeter_ids_distinct();
    let props = powermeter_properties(config);
    let c0: int = 1;
    let at0: int = 0int;
    assert(props[at0] == power_property());
    let c1: int = if config.current {
        1
    } else {
        0
    };
    let at1: int = 0int + c0;
    if config.current {
        assert(props[at1] == current_property());
    }
    let c2: int = if config.voltage {
        1
    } else {
        0
    };
    let at2: int = 0int + c0 + c1;
    if config.voltage {
        assert(props[at2] == voltage_property());
    }
    let c3: int = if config.frequency {
        1
    } else {
        0
    };
    let at3: int = 0int + c0 + c1 + c2;
    if config.frequency {
        assert(props[at3] == frequency_property());
    }
    let c4: int = if config.consumption {
        1
    } else {
        0
    };
    let at4: int = 0int + c0 + c1 + c2 + c3;
    if config.consumption {
        assert(props[at4] == consumption_property());
    }
    assert(props.len() == 0int + c0 + c1 + c2 + c3 + c4);
    assert forall|j: int| 0 <= j < props.len() implies props[j].id == (if j == at0 {
        POWERMETER_NODE_POWER_PROP_ID@
    } else if j == at1 && c1 == 1 {
        POWERMETER_NODE_CURRENT_PROP_ID@
    } else if j == at2 && c2 == 1 {
        POWERMETER_NODE_VOLTAGE_PROP_ID@
    } else if j == at3 && c3 == 1 {
        POWERMETER_NODE_FREQUENCY_PROP_ID@
    } else {
        POWERMETER_NODE_CONSUMPTION_PROP_ID@
    }) by {}
}

/// Every power meter schema passes the schema checks: valid, distinct ids
/// and formats that suit their datatypes and admit a value.
pub proof fn lemma_powermeter_schema_valid(config: PowermeterNodeConfig)
    ensures
        schema_valid(powermeter_schema(config)),
{
    lemma_powermeter_ids_distinct();
    reveal_strlit("power");
    reveal_strlit("current");
    reveal_strlit("voltage");
    reveal_strlit("frequency");
    reveal_strlit("consumption");
    reveal_with_fuel(crate::validation::id_chars, 12);
    reveal_with_fuel(crate::validation::first_problem, 6);
    let props = powermeter_properties(config);
    let c0: int = 1;
    assert(props[0int] == power_property());
    let c1: int = if config.current {
        1
    } else {
        0
    };
    if config.current {
        assert(props[0int + c0] == current_property());
    }
    let c2: int = if config.voltage {
        1
    } else {
        0
    };
    if config.voltage {
        assert(props[0int + c0 + c1] == voltage_property());
    }
    let c3: int = if config.frequency {
        1
    } else {
        0
    };
    if config.frequency {
        assert(props[0int + c0 + c1 + c2] == frequency_property());
    }
    let c4: int = if config.consumption {
        1
    } else {
        0
    };
    if config.consumption {
        assert(props[0int + c0 + c1 + c2 + c3] == consumption_property());
    }
    assert(props.len() == 0int + c0 + c1 + c2 + c3 + c4);
}

} // verus!
