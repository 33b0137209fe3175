use hc_smarthome::codec::{decode, encode, ColorValue, DecodeError, TypedValue};
use hc_smarthome::format::{
    ColorFormat, DataType, FloatRange, IntegerRange, PropertyDescriptor, ValueFormat,
};
use hc_smarthome::numeric::{render_decimal, render_integer, Decimal};

fn integer_prop(min: Option<i64>, max: Option<i64>) -> PropertyDescriptor {
    PropertyDescriptor::new("level", "Level", DataType::Integer)
        .format(ValueFormat::IntegerRange(IntegerRange { min, max, step: None }))
}

fn enum_prop(tokens: &[&str]) -> PropertyDescriptor {
    PropertyDescriptor::new("action", "Action", DataType::Enum).format(ValueFormat::EnumSet(
        tokens.iter().map(|t| t.to_string()).collect(),
    ))
}

fn bool_prop(f: &str, t: &str) -> PropertyDescriptor {
    PropertyDescriptor::new("state", "State", DataType::Boolean).format(ValueFormat::BooleanWords {
        false_word: f.to_string(),
        true_word: t.to_string(),
    })
}

fn float_prop(min: Option<Decimal>, max: Option<Decimal>) -> PropertyDescriptor {
    PropertyDescriptor::new("temp", "Temperature", DataType::Float)
        .format(ValueFormat::FloatRange(FloatRange { min, max, step: None }))
}

fn color_prop(formats: Vec<ColorFormat>) -> PropertyDescriptor {
    PropertyDescriptor::new("color", "Color", DataType::Color)
        .format(ValueFormat::ColorEncodings(formats))
}

fn dec(mantissa: i64, scale: u32) -> Decimal {
    Decimal { mantissa, scale }
}

#[test]
fn integer_range_boundaries() {
    let p = integer_prop(Some(0), Some(100));
    assert_eq!(decode("100", &p), Ok(TypedValue::Integer(100)));
    assert_eq!(decode("0", &p), Ok(TypedValue::Integer(0)));
    assert_eq!(decode("101", &p), Err(DecodeError::OutOfRange));
    assert_eq!(decode("-1", &p), Err(DecodeError::OutOfRange));
    assert_eq!(decode("abc", &p), Err(DecodeError::InvalidPayload));
}

#[test]
fn integer_step_is_not_enforced() {
    let p = PropertyDescriptor::new("level", "Level", DataType::Integer).format(
        ValueFormat::IntegerRange(IntegerRange { min: Some(0), max: Some(100), step: Some(10) }),
    );
    assert_eq!(decode("55", &p), Ok(TypedValue::Integer(55)));
}

#[test]
fn integer_literal_edges() {
    let p = integer_prop(None, None);
    assert_eq!(decode("9223372036854775807", &p), Ok(TypedValue::Integer(i64::MAX)));
    assert_eq!(decode("-9223372036854775808", &p), Ok(TypedValue::Integer(i64::MIN)));
    assert_eq!(decode("9223372036854775808", &p), Err(DecodeError::InvalidPayload));
    assert_eq!(decode("+7", &p), Ok(TypedValue::Integer(7)));
    assert_eq!(decode("", &p), Err(DecodeError::InvalidPayload));
    assert_eq!(decode("-", &p), Err(DecodeError::InvalidPayload));
    assert_eq!(decode("1.5", &p), Err(DecodeError::InvalidPayload));
    assert_eq!(decode(" 1", &p), Err(DecodeError::InvalidPayload));
}

#[test]
fn enum_membership() {
    let p = enum_prop(&["up", "down", "stop"]);
    assert_eq!(decode("stop", &p), Ok(TypedValue::Enum("stop".to_string())));
    assert_eq!(decode("open", &p), Err(DecodeError::InvalidPayload));
    assert_eq!(decode("Stop", &p), Err(DecodeError::InvalidPayload));
}

#[test]
fn boolean_words() {
    let p = bool_prop("off", "on");
    assert_eq!(decode("on", &p), Ok(TypedValue::Bool(true)));
    assert_eq!(decode("off", &p), Ok(TypedValue::Bool(false)));
    assert_eq!(decode("true", &p), Err(DecodeError::InvalidPayload));
    assert_eq!(decode("ON", &p), Err(DecodeError::InvalidPayload));
    let plain = PropertyDescriptor::new("flag", "Flag", DataType::Boolean);
    assert_eq!(decode("true", &plain), Ok(TypedValue::Bool(true)));
    assert_eq!(decode("false", &plain), Ok(TypedValue::Bool(false)));
    assert_eq!(decode("on", &plain), Err(DecodeError::InvalidPayload));
}

#[test]
fn float_range() {
    let p = float_prop(Some(dec(50, 1)), Some(dec(320, 1)));
    assert_eq!(decode("21.5", &p), Ok(TypedValue::Float(dec(215, 1))));
    assert_eq!(decode("5", &p), Ok(TypedValue::Float(dec(5, 0))));
    assert_eq!(decode("32.00", &p), Ok(TypedValue::Float(dec(3200, 2))));
    assert_eq!(decode("32.01", &p), Err(DecodeError::OutOfRange));
    assert_eq!(decode("4.99", &p), Err(DecodeError::OutOfRange));
    assert_eq!(decode("1e3", &p), Err(DecodeError::InvalidPayload));
    assert_eq!(decode(".5", &p), Err(DecodeError::InvalidPayload));
    assert_eq!(decode("5.", &p), Err(DecodeError::InvalidPayload));
    assert_eq!(decode("NaN", &p), Err(DecodeError::InvalidPayload));
    let absolute = float_prop(Some(dec(-27315, 2)), None);
    assert_eq!(decode("-273.15", &absolute), Ok(TypedValue::Float(dec(-27315, 2))));
    assert_eq!(decode("-273.16", &absolute), Err(DecodeError::OutOfRange));
}

#[test]
fn float_scale_limit() {
    let p = float_prop(None, None);
    assert_eq!(
        decode("0.000000000000000001", &p),
        Ok(TypedValue::Float(dec(1, 18)))
    );
    assert_eq!(decode("0.0000000000000000001", &p), Err(DecodeError::InvalidPayload));
}

#[test]
fn colors() {
    let rgb = color_prop(vec![ColorFormat::Rgb]);
    assert_eq!(decode("rgb,255,0,10", &rgb), Ok(TypedValue::Color(ColorValue::Rgb(255, 0, 10))));
    assert_eq!(decode("rgb,256,0,0", &rgb), Err(DecodeError::InvalidPayload));
    assert_eq!(decode("rgb,1,2", &rgb), Err(DecodeError::InvalidPayload));
    assert_eq!(decode("hsv,120,100,100", &rgb), Err(DecodeError::InvalidPayload));
    assert_eq!(decode("cmyk,1,2,3", &rgb), Err(DecodeError::InvalidPayload));
    let all = color_prop(vec![ColorFormat::Rgb, ColorFormat::Hsv, ColorFormat::Xyz]);
    assert_eq!(
        decode("hsv,120,100,100", &all),
        Ok(TypedValue::Color(ColorValue::Hsv(120, 100, 100)))
    );
    assert_eq!(decode("hsv,361,0,0", &all), Err(DecodeError::InvalidPayload));
    assert_eq!(
        decode("xyz,0.25,0.34", &all),
        Ok(TypedValue::Color(ColorValue::Xyz(dec(25, 2), dec(34, 2))))
    );
    assert_eq!(decode("xyz,0.7,0.4", &all), Err(DecodeError::InvalidPayload));
}

#[test]
fn unconstrained_text() {
    let p = PropertyDescriptor::new("label", "Label", DataType::String);
    assert_eq!(decode("hello", &p), Ok(TypedValue::Text("hello".to_string())));
    assert_eq!(decode("", &p), Err(DecodeError::InvalidPayload));
}

#[test]
fn format_must_suit_datatype() {
    let p = PropertyDescriptor::new("level", "Level", DataType::Integer)
        .format(ValueFormat::EnumSet(vec!["1".to_string()]));
    assert_eq!(decode("1", &p), Err(DecodeError::InvalidPayload));
}

#[test]
fn rendering() {
    assert_eq!(render_integer(-42), "-42");
    assert_eq!(render_integer(0), "0");
    assert_eq!(render_integer(i64::MIN), "-9223372036854775808");
    assert_eq!(render_decimal(dec(215, 1)), "21.5");
    assert_eq!(render_decimal(dec(-5, 2)), "-0.05");
    assert_eq!(render_decimal(dec(50, 1)), "5.0");
    assert_eq!(render_decimal(dec(7, 0)), "7");
}

#[test]
fn round_trips() {
    let cases: Vec<(PropertyDescriptor, TypedValue)> = vec![
        (bool_prop("off", "on"), TypedValue::Bool(true)),
        (bool_prop("off", "on"), TypedValue::Bool(false)),
        (integer_prop(Some(-10), Some(10)), TypedValue::Integer(-10)),
        (integer_prop(None, None), TypedValue::Integer(i64::MIN)),
        (float_prop(None, None), TypedValue::Float(dec(-5, 2))),
        (float_prop(Some(dec(0, 0)), None), TypedValue::Float(dec(1000, 3))),
        (enum_prop(&["up", "down"]), TypedValue::Enum("down".to_string())),
        (color_prop(vec![ColorFormat::Rgb]), TypedValue::Color(ColorValue::Rgb(1, 2, 3))),
        (color_prop(vec![ColorFormat::Hsv]), TypedValue::Color(ColorValue::Hsv(360, 0, 100))),
        (
            color_prop(vec![ColorFormat::Xyz]),
            TypedValue::Color(ColorValue::Xyz(dec(5, 1), dec(5, 1))),
        ),
        (
            PropertyDescriptor::new("label", "Label", DataType::String),
            TypedValue::Text("x y".to_string()),
        ),
    ];
    for (prop, value) in cases {
        let text = encode(&value, &prop.format);
        assert_eq!(decode(&text, &prop), Ok(value));
    }
    assert_eq!(encode(&TypedValue::Bool(true), &bool_prop("off", "on").format), "on");
    assert_eq!(
        encode(&TypedValue::Color(ColorValue::Rgb(1, 2, 3)), &ValueFormat::Unconstrained),
        "rgb,1,2,3"
    );
}
