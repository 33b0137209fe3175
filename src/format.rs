//! Property schemas: value formats, property descriptors and node schemas,
//! with their mathematical views.
use vstd::prelude::*;

use crate::numeric::Decimal;

verus! {

pub const UNIT_DEGREE_CELSIUS: &'static str = "°C";

pub const UNIT_DEGREE: &'static str = "°";

pub const UNIT_LITER: &'static str = "L";

pub const UNIT_VOLT: &'static str = "V";

pub const UNIT_WATT: &'static str = "W";

pub const UNIT_KILOWATTHOUR: &'static str = "kWh";

pub const UNIT_AMPERE: &'static str = "A";

pub const UNIT_MILLIAMPERE: &'static str = "mA";

pub const UNIT_HERTZ: &'static str = "Hz";

pub const UNIT_PERCENT: &'static str = "%";

pub const UNIT_METER: &'static str = "m";

pub const UNIT_KILOPASCAL: &'static str = "kPa";

pub const UNIT_MINUTES: &'static str = "min";

pub const UNIT_LUX: &'static str = "lx";

/// Primitive datatypes of the protocol.
#[derive(Clone, Copy, Debug, PartialEq, Eq, Structural)]
pub enum DataType {
    Integer,
    Float,
    Boolean,
    String,
    Enum,
    Color,
    Datetime,
    Duration,
    Json,
}

/// Color representations a color property may accept.
#[derive(Clone, Copy, Debug, PartialEq, Eq, Structural)]
pub enum ColorFormat {
    Rgb,
    Hsv,
    Xyz,
}

/// Bounds of an integer property. The step is advisory: decoding does not
/// enforce it, since the source device is trusted on increments.
#[derive(Clone, Copy, Debug, PartialEq, Eq, Structural)]
pub struct IntegerRange {
    pub min: Option<i64>,
    pub max: Option<i64>,
    pub step: Option<i64>,
}

/// Bounds of a fractional property. As for [`IntegerRange`], the step is
/// advisory and not enforced when decoding.
#[derive(Clone, Copy, Debug, PartialEq, Eq, Structural)]
pub struct FloatRange {
    pub min: Option<Decimal>,
    pub max: Option<Decimal>,
    pub step: Option<Decimal>,
}

/// The legal domain of a property's value.
#[derive(Debug, PartialEq, Eq, Clone)]
pub enum ValueFormat {
    BooleanWords { false_word: String, true_word: String },
    IntegerRange(IntegerRange),
    FloatRange(FloatRange),
    EnumSet(Vec<String>),
    ColorEncodings(Vec<ColorFormat>),
    Unconstrained,
}

pub enum FormatView {
    BooleanWords { false_word: Seq<char>, true_word: Seq<char> },
    IntegerRange(IntegerRange),
    FloatRange(FloatRange),
    EnumSet(Seq<Seq<char>>),
    ColorEncodings(Seq<ColorFormat>),
    Unconstrained,
}

/// The texts a sequence of strings holds.
pub open spec fn texts(v: Seq<String>) -> Seq<Seq<char>> {
    v.map_values(|s: String| s@)
}

pub open spec fn opt_text(o: Option<String>) -> Option<Seq<char>> {
    match o {
        Some(s) => Some(s@),
        None => None,
    }
}

impl View for ValueFormat {
    type V = FormatView;

    open spec fn view(&self) -> FormatView {
        match self {
            ValueFormat::BooleanWords { false_word, true_word } => FormatView::BooleanWords {
                false_word: false_word@,
                true_word: true_word@,
            },
            ValueFormat::IntegerRange(r) => FormatView::IntegerRange(*r),
            ValueFormat::FloatRange(r) => FormatView::FloatRange(*r),
            ValueFormat::EnumSet(v) => FormatView::EnumSet(texts(v@)),
            ValueFormat::ColorEncodings(v) => FormatView::ColorEncodings(v@),
            ValueFormat::Unconstrained => FormatView::Unconstrained,
        }
    }
}

/// Copies a vector of strings.
pub fn copy_texts(v: &Vec<String>) -> (r: Vec<String>)
    ensures
        texts(r@) == texts(v@),
{
    let mut r: Vec<String> = Vec::new();
    let mut i: usize = 0;
    while i < v.len()
        invariant
            i <= v@.len(),
            r@.len() == i,
            forall|j: int| 0 <= j < i ==> (#[trigger] r@[j])@ == v@[j]@,
        decreases v@.len() - i,
    {
        r.push(v[i].clone());
        i = i + 1;
    }
    assert(texts(r@) =~= texts(v@));
    r
}

/// Copies a vector of color formats.
fn copy_colors(v: &Vec<ColorFormat>) -> (r: Vec<ColorFormat>)
    ensures
        r@ == v@,
{
    let mut r: Vec<ColorFormat> = Vec::new();
    let mut i: usize = 0;
    while i < v.len()
        invariant
            i <= v@.len(),
            r@ == v@.subrange(0, i as int),
        decreases v@.len() - i,
    {
        r.push(v[i]);
        proof {
            assert(v@.subrange(0, i + 1) =~= v@.subrange(0, i as int).push(v@[i as int]));
        }
        i = i + 1;
    }
    assert(v@.subrange(0, v@.len() as int) =~= v@);
    r
}

impl ValueFormat {
    pub fn duplicate(&self) -> (r: ValueFormat)
        ensures
            r@ == self@,
    {
        match self {
            ValueFormat::BooleanWords { false_word, true_word } => ValueFormat::BooleanWords {
                false_word: false_word.clone(),
                true_word: true_word.clone(),
            },
            ValueFormat::IntegerRange(r) => ValueFormat::IntegerRange(*r),
            ValueFormat::FloatRange(r) => ValueFormat::FloatRange(*r),
            ValueFormat::EnumSet(v) => ValueFormat::EnumSet(copy_texts(v)),
            ValueFormat::ColorEncodings(v) => ValueFormat::ColorEncodings(copy_colors(v)),
            ValueFormat::Unconstrained => ValueFormat::Unconstrained,
        }
    }
}

/// One property of a node: its id, datatype, value format, unit and flags.
#[derive(Debug, PartialEq, Eq, Clone)]
pub struct PropertyDescriptor {
    pub id: String,
    pub name: String,
    pub datatype: DataType,
    pub format: ValueFormat,
    pub unit: Option<String>,
    pub settable: bool,
    pub retained: bool,
}

pub struct PropertyView {
    pub id: Seq<char>,
    pub name: Seq<char>,
    pub datatype: DataType,
    pub format: FormatView,
    pub unit: Option<Seq<char>>,
    pub settable: bool,
    pub retained: bool,
}

impl View for PropertyDescriptor {
    type V = PropertyView;

    open spec fn view(&self) -> PropertyView {
        PropertyView {
            id: self.id@,
            name: self.name@,
            datatype: self.datatype,
            format: self.format@,
            unit: opt_text(self.unit),
            settable: self.settable,
            retained: self.retained,
        }
    }
}

/// A property as first declared: no format constraint, no unit, not
/// settable, retained.
pub open spec fn property_spec(id: Seq<char>, name: Seq<char>, datatype: DataType) -> PropertyView {
    PropertyView {
        id,
        name,
        datatype,
        format: FormatView::Unconstrained,
        unit: None,
        settable: false,
        retained: true,
    }
}

impl PropertyView {
    pub open spec fn with_format(self, format: FormatView) -> PropertyView {
        PropertyView { format, ..self }
    }

    pub open spec fn with_unit(self, unit: Seq<char>) -> PropertyView {
        PropertyView { unit: Some(unit), ..self }
    }

    pub open spec fn with_settable(self, settable: bool) -> PropertyView {
        PropertyView { settable, ..self }
    }

    pub open spec fn with_retained(self, retained: bool) -> PropertyView {
        PropertyView { retained, ..self }
    }
}

impl PropertyDescriptor {
    pub fn new(id: &str, name: &str, datatype: DataType) -> (r: PropertyDescriptor)
        ensures
            r@ == property_spec(id@, name@, datatype),
    {
        PropertyDescriptor {
            id: id.to_owned(),
            name: name.to_owned(),
            datatype,
            format: ValueFormat::Unconstrained,
            unit: None,
            settable: false,
            retained: true,
        }
    }

    pub fn format(self, format: ValueFormat) -> (r: PropertyDescriptor)
        ensures
            r@ == self@.with_format(format@),
    {
        PropertyDescriptor { format, ..self }
    }

    pub fn unit(self, unit: &str) -> (r: PropertyDescriptor)
        ensures
            r@ == self@.with_unit(unit@),
    {
        PropertyDescriptor { unit: Some(unit.to_owned()), ..self }
    }

    pub fn settable(self, settable: bool) -> (r: PropertyDescriptor)
        ensures
            r@ == self@.with_settable(settable),
    {
        PropertyDescriptor { settable, ..self }
    }

    pub fn retained(self, retained: bool) -> (r: PropertyDescriptor)
        ensures
            r@ == self@.with_retained(retained),
    {
        PropertyDescriptor { retained, ..self }
    }

    pub fn duplicate(&self) -> (r: PropertyDescriptor)
        ensures
            r@ == self@,
    {
        PropertyDescriptor {
            id: self.id.clone(),
            name: self.name.clone(),
            datatype: self.datatype,
            format: self.format.duplicate(),
            unit: match &self.unit {
                Some(u) => Some(u.clone()),
                None => None,
            },
            settable: self.settable,
            retained: self.retained,
        }
    }
}

/// A node's schema: its type tag, display name and ordered properties.
#[derive(Debug, PartialEq, Eq, Clone)]
pub struct NodeSchema {
    pub type_tag: String,
    pub name: Option<String>,
    pub properties: Vec<PropertyDescriptor>,
}

pub struct SchemaView {
    pub type_tag: Seq<char>,
    pub name: Option<Seq<char>>,
    pub properties: Seq<PropertyView>,
}

impl View for NodeSchema {
    type V = SchemaView;

    open spec fn view(&self) -> SchemaView {
        SchemaView {
            type_tag: self.type_tag@,
            name: opt_text(self.name),
            properties: self.properties@.map_values(|p: PropertyDescriptor| p@),
        }
    }
}

impl SchemaView {
    /// The schema with another display name.
    pub open spec fn named(self, name: Option<Seq<char>>) -> SchemaView {
        SchemaView { name, ..self }
    }

    /// The ids of the properties, in order.
    pub open spec fn ids(self) -> Seq<Seq<char>> {
        self.properties.map_values(|p: PropertyView| p.id)
    }

    /// The position of the first property with the given id, if any.
    pub open spec fn position_of(self, id: Seq<char>) -> Option<int> {
        if exists|i: int| 0 <= i < self.properties.len() && self.properties[i].id == id {
            let i = choose|i: int|
                0 <= i < self.properties.len() && self.properties[i].id == id && forall|j: int|
                    0 <= j < i ==> self.properties[j].id != id;
            Some(i)
        } else {
            None
        }
    }
}

/// A property is present exactly once when `enabled`, and its id is absent
/// otherwise.
pub open spec fn included_iff(props: Seq<PropertyView>, p: PropertyView, enabled: bool) -> bool {
    if enabled {
        exists|i: int|
            0 <= i < props.len() && props[i] == p && forall|j: int|
                0 <= j < props.len() && j != i ==> props[j].id != p.id
    } else {
        forall|j: int| 0 <= j < props.len() ==> props[j].id != p.id
    }
}

impl NodeSchema {
    pub fn new(type_tag: &str, name: &str) -> (r: NodeSchema)
        ensures
            r@ == (SchemaView { type_tag: type_tag@, name: Some(name@), properties: seq![] }),
    {
        let r = NodeSchema {
            type_tag: type_tag.to_owned(),
            name: Some(name.to_owned()),
            properties: Vec::new(),
        };
        assert(r@.properties =~= seq![]);
        r
    }

    /// Appends a property.
    pub fn add_property(&mut self, p: PropertyDescriptor)
        ensures
            final(self)@ == (SchemaView {
                properties: old(self)@.properties.push(p@),
                ..old(self)@
            }),
    {
        let ghost pv = p@;
        self.properties.push(p);
        assert(self@.properties =~= old(self)@.properties.push(pv));
    }

    /// Replaces the display name.
    pub fn set_name(&mut self, name: Option<String>)
        ensures
            final(self)@ == (SchemaView { name: opt_text(name), ..old(self)@ }),
    {
        self.name = name;
    }

    /// The position of the first property with the given id.
    pub fn find(&self, id: &String) -> (r: Option<usize>)
        ensures
            match r {
                Some(i) => self@.position_of(id@) == Some(i as int),
                None => self@.position_of(id@) is None,
            },
            r matches Some(i) ==> i < self.properties@.len(),
    {
        let mut i: usize = 0;
        while i < self.properties.len()
            invariant
                i <= self.properties@.len(),
                forall|j: int| 0 <= j < i ==> (#[trigger] self.properties@[j]).id@ != id@,
            decreases self.properties@.len() - i,
        {
            if self.properties[i].id == *id {
                proof {
                    let v = self@;
                    assert(v.properties[i as int].id == id@);
                    assert forall|j: int| 0 <= j < i implies v.properties[j].id != id@ by {
                        assert(v.properties[j].id == self.properties@[j].id@);
                    }
                    let k = choose|k: int|
                        0 <= k < v.properties.len() && v.properties[k].id == id@ && forall|j: int|
                            0 <= j < k ==> v.properties[j].id != id@;
                    if k < i {
                        assert(self.properties@[k].id@ == v.properties[k].id);
                    }
                    if k > i {
                        assert(v.properties[i as int].id != id@);
                    }
                }
                return Some(i);
            }
            i = i + 1;
        }
        proof {
            let v = self@;
            assert forall|j: int| 0 <= j < v.properties.len() implies v.properties[j].id != id@ by {
                assert(v.properties[j].id == self.properties@[j].id@);
            }
        }
        None
    }

    pub fn duplicate(&self) -> (r: NodeSchema)
        ensures
            r@ == self@,
    {
        let mut props: Vec<PropertyDescriptor> = Vec::new();
        let mut i: usize = 0;
        while i < self.properties.len()
            invariant
                i <= self.properties@.len(),
                props@.len() == i,
                forall|j: int| 0 <= j < i ==> (#[trigger] props@[j])@ == self.properties@[j]@,
            decreases self.properties@.len() - i,
        {
            props.push(self.properties[i].duplicate());
            i = i + 1;
        }
        let r = NodeSchema {
            type_tag: self.type_tag.clone(),
            name: match &self.name {
                Some(n) => Some(n.clone()),
                None => None,
            },
            properties: props,
        };
        assert(r@.properties =~= self@.properties);
        r
    }
}

} // verus!
