use hc_smarthome::dimmer_node::{DimmerNodeBuilder, DimmerNodeConfig};
use hc_smarthome::format::{
    DataType, FloatRange, IntegerRange, NodeSchema, PropertyDescriptor, ValueFormat,
};
use hc_smarthome::numeric::Decimal;
use hc_smarthome::switch_node::{SwitchNodeBuilder, SwitchNodeConfig};
use hc_smarthome::thermostat_node::{ThermostatNodeBuilder, ThermostatNodeConfig};
use hc_smarthome::validation::{check_schema, SchemaError};

fn schema_with(props: Vec<PropertyDescriptor>) -> NodeSchema {
    let mut s = NodeSchema::new("homie-homecontrol/v1/type=test", "Test");
    for p in props {
        s.add_property(p);
    }
    s
}

#[test]
fn built_schemas_pass() {
    assert_eq!(check_schema(&SwitchNodeBuilder::new(&SwitchNodeConfig::default()).build()), Ok(()));
    assert_eq!(check_schema(&DimmerNodeBuilder::new(&DimmerNodeConfig::default()).build()), Ok(()));
    assert_eq!(
        check_schema(&ThermostatNodeBuilder::new(&ThermostatNodeConfig::default()).build()),
        Ok(())
    );
}

#[test]
fn invalid_id() {
    let s = schema_with(vec![PropertyDescriptor::new("Bad_Id", "Bad", DataType::Integer)]);
    assert_eq!(check_schema(&s), Err(SchemaError::InvalidId));
    let s = schema_with(vec![PropertyDescriptor::new("", "Empty", DataType::Integer)]);
    assert_eq!(check_schema(&s), Err(SchemaError::InvalidId));
}

#[test]
fn duplicate_id() {
    let s = schema_with(vec![
        PropertyDescriptor::new("level", "A", DataType::Integer),
        PropertyDescriptor::new("level", "B", DataType::Integer),
    ]);
    assert_eq!(check_schema(&s), Err(SchemaError::DuplicateId));
}

#[test]
fn format_mismatch() {
    let s = schema_with(vec![PropertyDescriptor::new("mode", "Mode", DataType::Enum)]);
    assert_eq!(check_schema(&s), Err(SchemaError::FormatMismatch));
}

#[test]
fn empty_enum() {
    let s = schema_with(vec![
        PropertyDescriptor::new("mode", "Mode", DataType::Enum).format(
            ValueFormat::EnumSet(vec![])
        ),
    ]);
    assert_eq!(check_schema(&s), Err(SchemaError::InvalidFormat));
    let s = schema_with(vec![PropertyDescriptor::new("state", "State", DataType::Boolean).format(
        ValueFormat::BooleanWords { false_word: "x".to_string(), true_word: "x".to_string() },
    )]);
    assert_eq!(check_schema(&s), Err(SchemaError::InvalidFormat));
}

#[test]
fn first_problem_decides() {
    let s = schema_with(vec![
        PropertyDescriptor::new("mode", "Mode", DataType::Enum),
        PropertyDescriptor::new("BAD", "Bad", DataType::Integer),
    ]);
    assert_eq!(check_schema(&s), Err(SchemaError::FormatMismatch));
}

#[test]
fn empty_ranges() {
    let inverted_range = IntegerRange { min: Some(10), max: Some(5), step: None };
    let inverted = schema_with(vec![PropertyDescriptor::new("level", "Level", DataType::Integer)
        .format(ValueFormat::IntegerRange(inverted_range))]);
    assert_eq!(check_schema(&inverted), Err(SchemaError::InvalidFormat));
    let zero_step = schema_with(vec![PropertyDescriptor::new("level", "Level", DataType::Integer)
        .format(ValueFormat::IntegerRange(IntegerRange { min: None, max: None, step: Some(0) }))]);
    assert_eq!(check_schema(&zero_step), Err(SchemaError::InvalidFormat));
    let float_inverted = schema_with(vec![PropertyDescriptor::new("temp", "Temp", DataType::Float)
        .format(ValueFormat::FloatRange(FloatRange {
            min: Some(Decimal { mantissa: 325, scale: 1 }),
            max: Some(Decimal { mantissa: 32, scale: 0 }),
            step: None,
        }))]);
    assert_eq!(check_schema(&float_inverted), Err(SchemaError::InvalidFormat));
    let float_ok = schema_with(vec![PropertyDescriptor::new("temp", "Temp", DataType::Float)
        .format(ValueFormat::FloatRange(FloatRange {
            min: Some(Decimal { mantissa: 320, scale: 1 }),
            max: Some(Decimal { mantissa: 32, scale: 0 }),
            step: Some(Decimal { mantissa: 5, scale: 1 }),
        }))]);
    assert_eq!(check_schema(&float_ok), Ok(()));
}
