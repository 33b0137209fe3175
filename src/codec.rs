//! The value codec: a property's wire text to a typed value and back,
//! validated against the property's value format.
//!
//! Decoding never panics; a payload that does not parse as the declared
//! datatype, or is not one of the declared tokens, is `InvalidPayload`, and a
//! number outside the declared bounds is `OutOfRange`. Range steps are
//! advisory and are not enforced.
use vstd::prelude::*;

use crate::format::{
    ColorFormat, DataType, FloatRange, FormatView, IntegerRange, PropertyDescriptor, PropertyView,
    ValueFormat, texts,
};
use crate::numeric::{
    Decimal, all_digits, digits_of, lemma_decimal_round_trip, lemma_digits_of,
    lemma_integer_round_trip, lemma_padded_chars, padded_digits, abs, decimal_of, integer_of,
    integer_text, parse_decimal, parse_integer,
    pow10, render_decimal, render_integer,
};

verus! {

/// A color value, by its encoding.
#[derive(Clone, Copy, Debug, PartialEq, Eq, Structural)]
pub enum ColorValue {
    Rgb(i64, i64, i64),
    Hsv(i64, i64, i64),
    Xyz(Decimal, Decimal),
}

impl ColorValue {
    pub open spec fn spec_format(self) -> ColorFormat {
        match self {
            ColorValue::Rgb(..) => ColorFormat::Rgb,
            ColorValue::Hsv(..) => ColorFormat::Hsv,
            ColorValue::Xyz(..) => ColorFormat::Xyz,
        }
    }

    /// Components within their ranges: red, green, blue in 0..=255; hue in
    /// 0..=360, saturation and value in 0..=100; x and y in [0, 1] with
    /// x + y at most 1.
    pub open spec fn valid(self) -> bool {
        match self {
            ColorValue::Rgb(r, g, b) => 0 <= r <= 255 && 0 <= g <= 255 && 0 <= b <= 255,
            ColorValue::Hsv(h, s, v) => 0 <= h <= 360 && 0 <= s <= 100 && 0 <= v <= 100,
            ColorValue::Xyz(x, y) => {
                let px = pow10(x.scale as nat);
                let py = pow10(y.scale as nat);
                &&& x.well_formed()
                &&& y.well_formed()
                &&& 0 <= x.mantissa <= px
                &&& 0 <= y.mantissa <= py
                &&& x.mantissa * py + y.mantissa * px <= px * py
            },
        }
    }

    pub fn format(&self) -> (r: ColorFormat)
        ensures
            r == self.spec_format(),
    {
        match self {
            ColorValue::Rgb(..) => ColorFormat::Rgb,
            ColorValue::Hsv(..) => ColorFormat::Hsv,
            ColorValue::Xyz(..) => ColorFormat::Xyz,
        }
    }
}

/// A decoded value.
#[derive(Debug, PartialEq, Eq, Clone)]
pub enum TypedValue {
    Bool(bool),
    Integer(i64),
    Float(Decimal),
    Enum(String),
    Color(ColorValue),
    Text(String),
}

pub enum ValueView {
    Bool(bool),
    Integer(i64),
    Float(Decimal),
    Enum(Seq<char>),
    Color(ColorValue),
    Text(Seq<char>),
}

impl View for TypedValue {
    type V = ValueView;

    open spec fn view(&self) -> ValueView {
        match self {
            TypedValue::Bool(b) => ValueView::Bool(*b),
            TypedValue::Integer(i) => ValueView::Integer(*i),
            TypedValue::Float(d) => ValueView::Float(*d),
            TypedValue::Enum(s) => ValueView::Enum(s@),
            TypedValue::Color(c) => ValueView::Color(*c),
            TypedValue::Text(s) => ValueView::Text(s@),
        }
    }
}

/// Why a payload was not accepted.
#[derive(Clone, Copy, Debug, PartialEq, Eq, Structural)]
pub enum DecodeError {
    InvalidPayload,
    OutOfRange,
}

pub open spec fn result_view(r: Result<TypedValue, DecodeError>) -> Result<ValueView, DecodeError> {
    match r {
        Ok(v) => Ok(v@),
        Err(e) => Err(e),
    }
}

// ---------------------------------------------------------------------------
// The specification of decoding and encoding
// ---------------------------------------------------------------------------

pub open spec fn range_well_formed(r: FloatRange) -> bool {
    &&& (r.min matches Some(m) ==> m.well_formed())
    &&& (r.max matches Some(m) ==> m.well_formed())
}

/// The format's variant suits the datatype (and its decimal bounds are
/// well-formed).
pub open spec fn format_fits(datatype: DataType, format: FormatView) -> bool {
    match datatype {
        DataType::Boolean => format is BooleanWords || format is Unconstrained,
        DataType::Integer => format is IntegerRange || format is Unconstrained,
        DataType::Float => match format {
            FormatView::FloatRange(r) => range_well_formed(r),
            FormatView::Unconstrained => true,
            _ => false,
        },
        DataType::Enum => format is EnumSet,
        DataType::Color => format is ColorEncodings,
        _ => format is Unconstrained,
    }
}

/// The words of a boolean property: those configured, else `false` / `true`.
pub open spec fn words_of(format: FormatView) -> (Seq<char>, Seq<char>) {
    match format {
        FormatView::BooleanWords { false_word, true_word } => (false_word, true_word),
        _ => ("false"@, "true"@),
    }
}

pub open spec fn integer_within(v: i64, format: FormatView) -> bool {
    match format {
        FormatView::IntegerRange(r) => (r.min matches Some(m) ==> m <= v) && (r.max matches Some(
            m,
        ) ==> v <= m),
        _ => true,
    }
}

pub open spec fn decimal_within(d: Decimal, format: FormatView) -> bool {
    match format {
        FormatView::FloatRange(r) => (r.min matches Some(m) ==> m.spec_at_most(d)) && (
        r.max matches Some(m) ==> d.spec_at_most(m)),
        _ => true,
    }
}

pub open spec fn tokens_of(format: FormatView) -> Seq<Seq<char>> {
    match format {
        FormatView::EnumSet(t) => t,
        _ => seq![],
    }
}

pub open spec fn colors_of(format: FormatView) -> Seq<ColorFormat> {
    match format {
        FormatView::ColorEncodings(c) => c,
        _ => seq![],
    }
}

/// Positions of the commas in a text, in order.
pub open spec fn separators(s: Seq<char>) -> Seq<int>
    decreases s.len(),
{
    if s.len() == 0 {
        seq![]
    } else {
        let p = separators(s.drop_last());
        if s.last() == ',' {
            p.push(s.len() - 1)
        } else {
            p
        }
    }
}

pub open spec fn field_count(s: Seq<char>) -> int {
    separators(s).len() + 1int
}

/// The `k`th comma-separated field of a text.
pub open spec fn field(s: Seq<char>, k: int) -> Seq<char> {
    let seps = separators(s);
    let start = if k == 0 {
        0
    } else {
        seps[k - 1] + 1
    };
    let end = if k < seps.len() {
        seps[k]
    } else {
        s.len() as int
    };
    s.subrange(start, end)
}

/// The color a payload denotes: `rgb,R,G,B`, `hsv,H,S,V` (integer
/// components) or `xyz,X,Y` (decimal components), each within range.
pub open spec fn color_of(s: Seq<char>) -> Option<ColorValue> {
    let n = field_count(s);
    let tag = field(s, 0);
    let c = if n == 4 && (tag == seq!['r', 'g', 'b'] || tag == seq!['h', 's', 'v']) {
        match (integer_of(field(s, 1)), integer_of(field(s, 2)), integer_of(field(s, 3))) {
            (Some(a), Some(b), Some(d)) => if tag == seq!['r', 'g', 'b'] {
                Some(ColorValue::Rgb(a, b, d))
            } else {
                Some(ColorValue::Hsv(a, b, d))
            },
            _ => None,
        }
    } else if n == 3 && tag == seq!['x', 'y', 'z'] {
        match (decimal_of(field(s, 1)), decimal_of(field(s, 2))) {
            (Some(x), Some(y)) => Some(ColorValue::Xyz(x, y)),
            _ => None,
        }
    } else {
        None
    };
    match c {
        Some(col) => if col.valid() {
            Some(col)
        } else {
            None
        },
        None => None,
    }
}

/// What decoding a payload against a property gives.
pub open spec fn decode_view(payload: Seq<char>, p: PropertyView) -> Result<
    ValueView,
    DecodeError,
> {
    if !format_fits(p.datatype, p.format) {
        Err(DecodeError::InvalidPayload)
    } else {
        match p.datatype {
            DataType::Boolean => {
                let (f, t) = words_of(p.format);
                if payload == f {
                    Ok(ValueView::Bool(false))
                } else if payload == t {
                    Ok(ValueView::Bool(true))
                } else {
                    Err(DecodeError::InvalidPayload)
                }
            },
            DataType::Integer => match integer_of(payload) {
                Some(v) => if integer_within(v, p.format) {
                    Ok(ValueView::Integer(v))
                } else {
                    Err(DecodeError::OutOfRange)
                },
                None => Err(DecodeError::InvalidPayload),
            },
            DataType::Float => match decimal_of(payload) {
                Some(d) => if decimal_within(d, p.format) {
                    Ok(ValueView::Float(d))
                } else {
                    Err(DecodeError::OutOfRange)
                },
                None => Err(DecodeError::InvalidPayload),
            },
            DataType::Enum => if tokens_of(p.format).contains(payload) {
                Ok(ValueView::Enum(payload))
            } else {
                Err(DecodeError::InvalidPayload)
            },
            DataType::Color => match color_of(payload) {
                Some(c) => if colors_of(p.format).contains(c.spec_format()) {
                    Ok(ValueView::Color(c))
                } else {
                    Err(DecodeError::InvalidPayload)
                },
                None => Err(DecodeError::InvalidPayload),
            },
            _ => if payload.len() > 0 {
                Ok(ValueView::Text(payload))
            } else {
                Err(DecodeError::InvalidPayload)
            },
        }
    }
}

pub open spec fn color_text(c: ColorValue) -> Seq<char> {
    match c {
        ColorValue::Rgb(r, g, b) => seq!['r', 'g', 'b', ','] + integer_text(r as int) + seq![',']
            + integer_text(g as int) + seq![','] + integer_text(b as int),
        ColorValue::Hsv(h, s, v) => seq!['h', 's', 'v', ','] + integer_text(h as int) + seq![',']
            + integer_text(s as int) + seq![','] + integer_text(v as int),
        ColorValue::Xyz(x, y) => seq!['x', 'y', 'z', ','] + x.text() + seq![','] + y.text(),
    }
}

/// The wire text of a value under a property's format.
pub open spec fn encode_view(v: ValueView, format: FormatView) -> Seq<char> {
    match v {
        ValueView::Bool(b) => if b {
            words_of(format).1
        } else {
            words_of(format).0
        },
        ValueView::Integer(i) => integer_text(i as int),
        ValueView::Float(d) => d.text(),
        ValueView::Enum(s) => s,
        ValueView::Color(c) => color_text(c),
        ValueView::Text(s) => s,
    }
}

/// A value lies in the legal domain of a property.
pub open spec fn in_domain(v: ValueView, p: PropertyView) -> bool {
    &&& format_fits(p.datatype, p.format)
    &&& match (p.datatype, v) {
        (DataType::Boolean, ValueView::Bool(_)) => words_of(p.format).0 != words_of(p.format).1,
        (DataType::Integer, ValueView::Integer(i)) => integer_within(i, p.format),
        (DataType::Float, ValueView::Float(d)) => d.well_formed() && decimal_within(d, p.format),
        (DataType::Enum, ValueView::Enum(s)) => tokens_of(p.format).contains(s),
        (DataType::Color, ValueView::Color(c)) => c.valid() && colors_of(p.format).contains(
            c.spec_format(),
        ),
        (DataType::String, ValueView::Text(s)) => s.len() > 0,
        (DataType::Datetime, ValueView::Text(s)) => s.len() > 0,
        (DataType::Duration, ValueView::Text(s)) => s.len() > 0,
        (DataType::Json, ValueView::Text(s)) => s.len() > 0,
        _ => false,
    }
}

// ---------------------------------------------------------------------------
// Text helpers
// ---------------------------------------------------------------------------

/// The characters of a text.
pub fn chars_of(s: &str) -> (r: Vec<char>)
    ensures
        r@ == s@,
{
    let n = s.unicode_len();
    let mut r: Vec<char> = Vec::new();
    let mut i: usize = 0;
    while i < n
        invariant
            n == s@.len(),
            i <= n,
            r@ == s@.subrange(0, i as int),
        decreases n - i,
    {
        r.push(s.get_char(i));
        proof {
            assert(s@.subrange(0, i + 1) =~= s@.subrange(0, i as int).push(s@[i as int]));
        }
        i = i + 1;
    }
    assert(s@.subrange(0, n as int) =~= s@);
    r
}

/// Whether `cs[start..end]` spells the given text.
pub fn chars_equal(cs: &Vec<char>, start: usize, end: usize, t: &str) -> (r: bool)
    requires
        start <= end <= cs@.len(),
    ensures
        r == (cs@.subrange(start as int, end as int) == t@),
{
    let n = t.unicode_len();
    if end - start != n {
        return false;
    }
    let mut i: usize = 0;
    while i < n
        invariant
            n == t@.len(),
            end - start == n,
            start <= end <= cs@.len(),
            i <= n,
            forall|j: int| 0 <= j < i ==> cs@[start + j] == t@[j],
        decreases n - i,
    {
        if cs[start + i] != t.get_char(i) {
            assert(cs@.subrange(start as int, end as int)[i as int] != t@[i as int]);
            return false;
        }
        i = i + 1;
    }
    assert(cs@.subrange(start as int, end as int) =~= t@);
    true
}

/// Whether the characters spell the given text.
pub fn text_equal(cs: &Vec<char>, t: &str) -> (r: bool)
    ensures
        r == (cs@ == t@),
{
    let r = chars_equal(cs, 0, cs.len(), t);
    assert(cs@.subrange(0, cs@.len() as int) =~= cs@);
    r
}

/// Whether two texts are equal.
pub fn str_equal(a: &str, b: &str) -> (r: bool)
    ensures
        r == (a@ == b@),
{
    text_equal(&chars_of(a), b)
}

/// Whether the characters spell one of the texts.
fn contains_text(tokens: &Vec<String>, cs: &Vec<char>) -> (r: bool)
    ensures
        r == texts(tokens@).contains(cs@),
{
    let mut i: usize = 0;
    while i < tokens.len()
        invariant
            i <= tokens@.len(),
            forall|j: int| 0 <= j < i ==> (#[trigger] tokens@[j])@ != cs@,
        decreases tokens@.len() - i,
    {
        if text_equal(cs, tokens[i].as_str()) {
            assert(texts(tokens@)[i as int] == cs@);
            return true;
        }
        i = i + 1;
    }
    proof {
        if texts(tokens@).contains(cs@) {
            let k = choose|k: int| 0 <= k < texts(tokens@).len() && texts(tokens@)[k] == cs@;
            assert(tokens@[k]@ == cs@);
        }
    }
    false
}

fn contains_color(formats: &Vec<ColorFormat>, f: ColorFormat) -> (r: bool)
    ensures
        r == formats@.contains(f),
{
    let mut i: usize = 0;
    while i < formats.len()
        invariant
            i <= formats@.len(),
            forall|j: int| 0 <= j < i ==> formats@[j] != f,
        decreases formats@.len() - i,
    {
        if formats[i] == f {
            return true;
        }
        i = i + 1;
    }
    false
}

/// Positions of the commas in `cs`, in order.
fn comma_positions(cs: &Vec<char>) -> (r: Vec<usize>)
    ensures
        r@.map_values(|p: usize| p as int) == separators(cs@),
        forall|k: int| 0 <= k < r@.len() ==> r@[k] < cs@.len(),
{
    let mut r: Vec<usize> = Vec::new();
    let mut i: usize = 0;
    while i < cs.len()
        invariant
            i <= cs@.len(),
            r@.map_values(|p: usize| p as int) == separators(cs@.subrange(0, i as int)),
            forall|k: int| 0 <= k < r@.len() ==> r@[k] < i,
        decreases cs@.len() - i,
    {
        let ghost before = r@;
        proof {
            let next = cs@.subrange(0, i + 1);
            assert(next.drop_last() =~= cs@.subrange(0, i as int));
            assert(next.last() == cs@[i as int]);
        }
        if cs[i] == ',' {
            r.push(i);
            assert(r@.map_values(|p: usize| p as int) =~= before.map_values(
                |p: usize| p as int,
            ).push(i as int));
        }
        i = i + 1;
    }
    assert(cs@.subrange(0, cs@.len() as int) =~= cs@);
    r
}

/// Parses a color payload.
pub fn parse_color(cs: &Vec<char>) -> (r: Option<ColorValue>)
    ensures
        r == color_of(cs@),
{
    let seps = comma_positions(cs);
    let ghost sv = seps@.map_values(|p: usize| p as int);
    let n = seps.len();
    if n == 0 {
        return None;
    }
    proof {
        assert(sv[0] == seps@[0] as int);
    }
    let tag_end = seps[0];
    let is_rgb = chars_equal(cs, 0, tag_end, "rgb");
    let is_hsv = chars_equal(cs, 0, tag_end, "hsv");
    let is_xyz = chars_equal(cs, 0, tag_end, "xyz");
    proof {
        reveal_strlit("rgb");
        reveal_strlit("hsv");
        reveal_strlit("xyz");
        assert(field(cs@, 0) == cs@.subrange(0, tag_end as int));
        assert("rgb"@ =~= seq!['r', 'g', 'b']);
        assert("hsv"@ =~= seq!['h', 's', 'v']);
        assert("xyz"@ =~= seq!['x', 'y', 'z']);
    }
    if n == 3 && (is_rgb || is_hsv) {
        proof {
            assert(sv[1] == seps@[1] as int);
            assert(sv[2] == seps@[2] as int);
        }
        assert(seps@[0] < seps@[1]) by {
            lemma_separators_ordered(cs@, 0, 1);
        }
        assert(seps@[1] < seps@[2]) by {
            lemma_separators_ordered(cs@, 1, 2);
        }
        let a = parse_integer(cs, seps[0] + 1, seps[1]);
        let b = parse_integer(cs, seps[1] + 1, seps[2]);
        let len = cs.len();
        assert(seps@[2] < len);
        let d = parse_integer(cs, seps[2] + 1, len);
        proof {
            assert(field(cs@, 1) == cs@.subrange(seps@[0] + 1, seps@[1] as int));
            assert(field(cs@, 2) == cs@.subrange(seps@[1] + 1, seps@[2] as int));
            assert(field(cs@, 3) == cs@.subrange(seps@[2] + 1, cs@.len() as int));
        }
        match (a, b, d) {
            (Some(a), Some(b), Some(d)) => {
                if is_rgb {
                    if 0 <= a && a <= 255 && 0 <= b && b <= 255 && 0 <= d && d <= 255 {
                        Some(ColorValue::Rgb(a, b, d))
                    } else {
                        None
                    }
                } else {
                    if 0 <= a && a <= 360 && 0 <= b && b <= 100 && 0 <= d && d <= 100 {
                        Some(ColorValue::Hsv(a, b, d))
                    } else {
                        None
                    }
                }
            },
            _ => None,
        }
    } else if n == 2 && is_xyz {
        proof {
            assert(sv[1] == seps@[1] as int);
        }
        assert(seps@[0] < seps@[1]) by {
            lemma_separators_ordered(cs@, 0, 1);
        }
        let x = parse_decimal(cs, seps[0] + 1, seps[1]);
        let len = cs.len();
        assert(seps@[1] < len);
        let y = parse_decimal(cs, seps[1] + 1, len);
        proof {
            assert(field(cs@, 1) == cs@.subrange(seps@[0] + 1, seps@[1] as int));
            assert(field(cs@, 2) == cs@.subrange(seps@[1] + 1, cs@.len() as int));
        }
        match (x, y) {
            (Some(x), Some(y)) => {
                if xyz_valid(x, y) {
                    Some(ColorValue::Xyz(x, y))
                } else {
                    None
                }
            },
            _ => None,
        }
    } else {
        None
    }
}

proof fn lemma_separators_ordered(s: Seq<char>, i: int, j: int)
    requires
        0 <= i < j < separators(s).len(),
    ensures
        separators(s)[i] < separators(s)[j],
        0 <= separators(s)[i],
        separators(s)[j] < s.len(),
    decreases s.len(),
{
    lemma_separators_bounds(s);
    let p = separators(s.drop_last());
    lemma_separators_bounds(s.drop_last());
    if s.last() == ',' && j == p.len() {
        assert(separators(s)[i] == p[i]);
    } else {
        lemma_separators_ordered(s.drop_last(), i, j);
    }
}

proof fn lemma_separators_bounds(s: Seq<char>)
    ensures
        forall|k: int| 0 <= k < separators(s).len() ==> 0 <= #[trigger] separators(s)[k] < s.len(),
    decreases s.len(),
{
    if s.len() > 0 {
        let p = separators(s.drop_last());
        lemma_separators_bounds(s.drop_last());
        assert forall|k: int| 0 <= k < separators(s).len() implies 0 <= #[trigger] separators(
            s,
        )[k] < s.len() by {
            if k < p.len() {
                assert(separators(s)[k] == p[k]);
            }
        }
    }
}

fn xyz_valid(x: Decimal, y: Decimal) -> (r: bool)
    requires
        x.well_formed(),
        y.well_formed(),
    ensures
        r == ColorValue::Xyz(x, y).valid(),
{
    let px = crate::numeric::pow10_of(x.scale);
    let py = crate::numeric::pow10_of(y.scale);
    if x.mantissa < 0 || y.mantissa < 0 || (x.mantissa as i128) > px || (y.mantissa as i128) > py {
        return false;
    }
    let xm = x.mantissa as i128;
    let ym = y.mantissa as i128;
    assert(xm * py <= 1_000_000_000_000_000_000_000_000_000_000_000_000) by (nonlinear_arith)
        requires
            0 <= xm <= 1_000_000_000_000_000_000,
            1 <= py <= 1_000_000_000_000_000_000,
    ;
    assert(ym * px <= 1_000_000_000_000_000_000_000_000_000_000_000_000) by (nonlinear_arith)
        requires
            0 <= ym <= 1_000_000_000_000_000_000,
            1 <= px <= 1_000_000_000_000_000_000,
    ;
    assert(px * py <= 1_000_000_000_000_000_000_000_000_000_000_000_000) by (nonlinear_arith)
        requires
            1 <= px <= 1_000_000_000_000_000_000,
            1 <= py <= 1_000_000_000_000_000_000,
    ;
    xm * py + ym * px <= px * py
}

// ---------------------------------------------------------------------------
// Decoding and encoding
// ---------------------------------------------------------------------------

pub fn fits(datatype: DataType, format: &ValueFormat) -> (r: bool)
    ensures
        r == format_fits(datatype, format@),
{
    match datatype {
        DataType::Boolean => match format {
            ValueFormat::BooleanWords { .. } => true,
            ValueFormat::Unconstrained => true,
            _ => false,
        },
        DataType::Integer => match format {
            ValueFormat::IntegerRange(_) => true,
            ValueFormat::Unconstrained => true,
            _ => false,
        },
        DataType::Float => match format {
            ValueFormat::FloatRange(r) => {
                let min_ok = match r.min {
                    Some(m) => m.scale <= crate::numeric::MAX_SCALE,
                    None => true,
                };
                let max_ok = match r.max {
                    Some(m) => m.scale <= crate::numeric::MAX_SCALE,
                    None => true,
                };
                min_ok && max_ok
            },
            ValueFormat::Unconstrained => true,
            _ => false,
        },
        DataType::Enum => match format {
            ValueFormat::EnumSet(_) => true,
            _ => false,
        },
        DataType::Color => match format {
            ValueFormat::ColorEncodings(_) => true,
            _ => false,
        },
        _ => match format {
            ValueFormat::Unconstrained => true,
            _ => false,
        },
    }
}

fn integer_in_range(v: i64, r: &IntegerRange) -> (ok: bool)
    ensures
        ok == integer_within(v, FormatView::IntegerRange(*r)),
{
    let above = match r.min {
        Some(m) => m <= v,
        None => true,
    };
    let below = match r.max {
        Some(m) => v <= m,
        None => true,
    };
    above && below
}

fn decimal_in_range(d: Decimal, r: &FloatRange) -> (ok: bool)
    requires
        d.well_formed(),
        range_well_formed(*r),
    ensures
        ok == decimal_within(d, FormatView::FloatRange(*r)),
{
    let above = match r.min {
        Some(m) => m.at_most(&d),
        None => true,
    };
    let below = match r.max {
        Some(m) => d.at_most(&m),
        None => true,
    };
    above && below
}

/// Decodes a payload against a property's datatype and value format.
///
/// Integer payloads are `[+|-]digits` within `i64`. Fractional payloads are
/// plain decimal literals only (see [`decimal_of`]): exponent notation such
/// as `1e2`, bare fractions such as `.5` and non-finite words are
/// `InvalidPayload`, as are more than eighteen fractional digits.
pub fn decode(payload: &str, prop: &PropertyDescriptor) -> (r: Result<TypedValue, DecodeError>)
    ensures
        result_view(r) == decode_view(payload@, prop@),
{
    if !fits(prop.datatype, &prop.format) {
        return Err(DecodeError::InvalidPayload);
    }
    let cs = chars_of(payload);
    match prop.datatype {
        DataType::Boolean => {
            let (is_false, is_true) = match &prop.format {
                ValueFormat::BooleanWords { false_word, true_word } => (
                    text_equal(&cs, false_word.as_str()),
                    text_equal(&cs, true_word.as_str()),
                ),
                _ => (text_equal(&cs, "false"), text_equal(&cs, "true")),
            };
            if is_false {
                Ok(TypedValue::Bool(false))
            } else if is_true {
                Ok(TypedValue::Bool(true))
            } else {
                Err(DecodeError::InvalidPayload)
            }
        },
        DataType::Integer => {
            let parsed = parse_integer(&cs, 0, cs.len());
            proof {
                assert(cs@.subrange(0, cs@.len() as int) =~= payload@);
            }
            match parsed {
                Some(v) => {
                    let ok = match &prop.format {
                        ValueFormat::IntegerRange(r) => integer_in_range(v, r),
                        _ => true,
                    };
                    if ok {
                        Ok(TypedValue::Integer(v))
                    } else {
                        Err(DecodeError::OutOfRange)
                    }
                },
                None => Err(DecodeError::InvalidPayload),
            }
        },
        DataType::Float => {
            let parsed = parse_decimal(&cs, 0, cs.len());
            proof {
                assert(cs@.subrange(0, cs@.len() as int) =~= payload@);
            }
            match parsed {
                Some(d) => {
                    let ok = match &prop.format {
                        ValueFormat::FloatRange(r) => decimal_in_range(d, r),
                        _ => true,
                    };
                    if ok {
                        Ok(TypedValue::Float(d))
                    } else {
                        Err(DecodeError::OutOfRange)
                    }
                },
                None => Err(DecodeError::InvalidPayload),
            }
        },
        DataType::Enum => {
            let member = match &prop.format {
                ValueFormat::EnumSet(tokens) => contains_text(tokens, &cs),
                _ => false,
            };
            if member {
                Ok(TypedValue::Enum(payload.to_owned()))
            } else {
                Err(DecodeError::InvalidPayload)
            }
        },
        DataType::Color => {
            match parse_color(&cs) {
                Some(c) => {
                    let allowed = match &prop.format {
                        ValueFormat::ColorEncodings(formats) => contains_color(formats, c.format()),
                        _ => false,
                    };
                    if allowed {
                        Ok(TypedValue::Color(c))
                    } else {
                        Err(DecodeError::InvalidPayload)
                    }
                },
                None => Err(DecodeError::InvalidPayload),
            }
        },
        _ => {
            if cs.len() > 0 {
                Ok(TypedValue::Text(payload.to_owned()))
            } else {
                Err(DecodeError::InvalidPayload)
            }
        },
    }
}

/// The wire text of a color.
pub fn render_color(c: &ColorValue) -> (r: String)
    ensures
        r@ == color_text(*c),
{
    proof {
        reveal_strlit("rgb,");
        reveal_strlit("hsv,");
        reveal_strlit("xyz,");
        reveal_strlit(",");
    }
    let mut out = String::new();
    match c {
        ColorValue::Rgb(a, b, d) => {
            out.append("rgb,");
            out.append(render_integer(*a).as_str());
            out.append(",");
            out.append(render_integer(*b).as_str());
            out.append(",");
            out.append(render_integer(*d).as_str());
        },
        ColorValue::Hsv(a, b, d) => {
            out.append("hsv,");
            out.append(render_integer(*a).as_str());
            out.append(",");
            out.append(render_integer(*b).as_str());
            out.append(",");
            out.append(render_integer(*d).as_str());
        },
        ColorValue::Xyz(x, y) => {
            out.append("xyz,");
            out.append(render_decimal(*x).as_str());
            out.append(",");
            out.append(render_decimal(*y).as_str());
        },
    }
    assert(out@ =~= color_text(*c));
    out
}

/// Encodes a value as wire text under a property's format.
pub fn encode(value: &TypedValue, format: &ValueFormat) -> (r: String)
    ensures
        r@ == encode_view(value@, format@),
{
    match value {
        TypedValue::Bool(b) => {
            match format {
                ValueFormat::BooleanWords { false_word, true_word } => if *b {
                    true_word.clone()
                } else {
                    false_word.clone()
                },
                _ => if *b {
                    "true".to_owned()
                } else {
                    "false".to_owned()
                },
            }
        },
        TypedValue::Integer(i) => render_integer(*i),
        TypedValue::Float(d) => render_decimal(*d),
        TypedValue::Enum(s) => s.clone(),
        TypedValue::Color(c) => render_color(c),
        TypedValue::Text(s) => s.clone(),
    }
}

// ---------------------------------------------------------------------------
// Round trip
// ---------------------------------------------------------------------------

pub open spec fn no_comma(s: Seq<char>) -> bool {
    forall|i: int| 0 <= i < s.len() ==> s[i] != ','
}

proof fn lemma_separators_no_comma_append(y: Seq<char>, x: Seq<char>)
    requires
        no_comma(x),
    ensures
        separators(y + x) == separators(y),
    decreases x.len(),
{
    if x.len() == 0 {
        assert(y + x =~= y);
    } else {
        assert((y + x).drop_last() =~= y + x.drop_last());
        assert((y + x).last() == x.last());
        assert(x.last() == x[x.len() - 1]);
        lemma_separators_no_comma_append(y, x.drop_last());
    }
}

/// Appending a comma and a comma-free field adds one separator.
proof fn lemma_separators_field(y: Seq<char>, x: Seq<char>)
    requires
        no_comma(x),
    ensures
        separators(y + seq![','] + x) == separators(y).push(y.len() as int),
{
    let z = y + seq![','];
    assert(z.drop_last() =~= y);
    assert(z.last() == ',');
    lemma_separators_no_comma_append(z, x);
}

proof fn lemma_integer_text_no_comma(v: int)
    ensures
        no_comma(integer_text(v)),
{
    lemma_digits_of(abs(v));
    let d = digits_of(abs(v));
    let t = integer_text(v);
    assert forall|i: int| 0 <= i < t.len() implies t[i] != ',' by {
        if v < 0 {
            if i > 0 {
                assert(t[i] == d[i - 1]);
            }
        } else {
            assert(t[i] == d[i]);
        }
    }
}

proof fn lemma_decimal_text_no_comma(d: Decimal)
    ensures
        no_comma(d.text()),
{
    let k = d.scale as nat;
    let body = padded_digits(abs(d.mantissa as int), k + 1);
    lemma_padded_chars(abs(d.mantissa as int), k + 1);
    let split = body.len() - k;
    let unsigned = if k == 0 {
        body
    } else {
        body.subrange(0, split) + seq!['.'] + body.subrange(split, body.len() as int)
    };
    assert forall|i: int| 0 <= i < unsigned.len() implies unsigned[i] != ',' by {
        if k == 0 {
            assert(all_digits(body));
        } else if i < split {
            assert(unsigned[i] == body[i]);
        } else if i > split {
            assert(unsigned[i] == body[i - 1]);
        }
    }
    let t = d.text();
    assert forall|i: int| 0 <= i < t.len() implies t[i] != ',' by {
        if d.mantissa < 0 {
            if i > 0 {
                assert(t[i] == unsigned[i - 1]);
            }
        } else {
            assert(t[i] == unsigned[i]);
        }
    }
}

/// The fields of `tag,a,b,c`.
proof fn lemma_four_fields(tag: Seq<char>, a: Seq<char>, b: Seq<char>, c: Seq<char>)
    requires
        no_comma(tag),
        no_comma(a),
        no_comma(b),
        no_comma(c),
    ensures
        ({
            let t = tag + seq![','] + a + seq![','] + b + seq![','] + c;
            &&& field_count(t) == 4
            &&& field(t, 0) == tag
            &&& field(t, 1) == a
            &&& field(t, 2) == b
            &&& field(t, 3) == c
        }),
{
    let t1 = tag + seq![','] + a;
    let t2 = t1 + seq![','] + b;
    let t = t2 + seq![','] + c;
    lemma_separators_no_comma_append(Seq::<char>::empty(), tag);
    assert(Seq::<char>::empty() + tag =~= tag);
    assert(separators(Seq::<char>::empty()) == Seq::<int>::empty());
    lemma_separators_field(tag, a);
    lemma_separators_field(t1, b);
    lemma_separators_field(t2, c);
    let seps = separators(t);
    assert(seps =~= seq![tag.len() as int, t1.len() as int, t2.len() as int]);
    assert(field(t, 0) =~= tag);
    assert(field(t, 1) =~= a);
    assert(field(t, 2) =~= b);
    assert(field(t, 3) =~= c);
}

/// The fields of `tag,a,b`.
proof fn lemma_three_fields(tag: Seq<char>, a: Seq<char>, b: Seq<char>)
    requires
        no_comma(tag),
        no_comma(a),
        no_comma(b),
    ensures
        ({
            let t = tag + seq![','] + a + seq![','] + b;
            &&& field_count(t) == 3
            &&& field(t, 0) == tag
            &&& field(t, 1) == a
            &&& field(t, 2) == b
        }),
{
    let t1 = tag + seq![','] + a;
    let t = t1 + seq![','] + b;
    lemma_separators_no_comma_append(Seq::<char>::empty(), tag);
    assert(Seq::<char>::empty() + tag =~= tag);
    assert(separators(Seq::<char>::empty()) == Seq::<int>::empty());
    lemma_separators_field(tag, a);
    lemma_separators_field(t1, b);
    let seps = separators(t);
    assert(seps =~= seq![tag.len() as int, t1.len() as int]);
    assert(field(t, 0) =~= tag);
    assert(field(t, 1) =~= a);
    assert(field(t, 2) =~= b);
}

proof fn lemma_rgb_round_trip(r: i64, g: i64, b: i64)
    requires
        ColorValue::Rgb(r, g, b).valid(),
    ensures
        color_of(color_text(ColorValue::Rgb(r, g, b))) == Some(ColorValue::Rgb(r, g, b)),
{
    let tag = seq!['r', 'g', 'b'];
    let (tr, tg, tb) = (integer_text(r as int), integer_text(g as int), integer_text(b as int));
    assert(seq!['r', 'g', 'b', ','] =~= tag + seq![',']);
    lemma_integer_text_no_comma(r as int);
    lemma_integer_text_no_comma(g as int);
    lemma_integer_text_no_comma(b as int);
    lemma_four_fields(tag, tr, tg, tb);
    lemma_integer_round_trip(r);
    lemma_integer_round_trip(g);
    lemma_integer_round_trip(b);
    let t = color_text(ColorValue::Rgb(r, g, b));
    assert(t == tag + seq![','] + tr + seq![','] + tg + seq![','] + tb);
    assert(integer_of(field(t, 1)) == Some(r));
    assert(integer_of(field(t, 2)) == Some(g));
    assert(integer_of(field(t, 3)) == Some(b));
}

proof fn lemma_hsv_round_trip(h: i64, s: i64, v: i64)
    requires
        ColorValue::Hsv(h, s, v).valid(),
    ensures
        color_of(color_text(ColorValue::Hsv(h, s, v))) == Some(ColorValue::Hsv(h, s, v)),
{
    let tag = seq!['h', 's', 'v'];
    let (th, ts, tv) = (integer_text(h as int), integer_text(s as int), integer_text(v as int));
    assert(seq!['h', 's', 'v', ','] =~= tag + seq![',']);
    lemma_integer_text_no_comma(h as int);
    lemma_integer_text_no_comma(s as int);
    lemma_integer_text_no_comma(v as int);
    lemma_four_fields(tag, th, ts, tv);
    lemma_integer_round_trip(h);
    lemma_integer_round_trip(s);
    lemma_integer_round_trip(v);
    let t = color_text(ColorValue::Hsv(h, s, v));
    assert(t == tag + seq![','] + th + seq![','] + ts + seq![','] + tv);
    assert(tag != seq!['r', 'g', 'b']) by {
        assert(tag[0] != seq!['r', 'g', 'b'][0]);
    }
    assert(integer_of(field(t, 1)) == Some(h));
    assert(integer_of(field(t, 2)) == Some(s));
    assert(integer_of(field(t, 3)) == Some(v));
}

proof fn lemma_xyz_round_trip(x: Decimal, y: Decimal)
    requires
        ColorValue::Xyz(x, y).valid(),
    ensures
        color_of(color_text(ColorValue::Xyz(x, y))) == Some(ColorValue::Xyz(x, y)),
{
    let tag = seq!['x', 'y', 'z'];
    assert(seq!['x', 'y', 'z', ','] =~= tag + seq![',']);
    lemma_decimal_text_no_comma(x);
    lemma_decimal_text_no_comma(y);
    lemma_three_fields(tag, x.text(), y.text());
    lemma_decimal_round_trip(x);
    lemma_decimal_round_trip(y);
    let t = color_text(ColorValue::Xyz(x, y));
    assert(t == tag + seq![','] + x.text() + seq![','] + y.text());
    assert(decimal_of(field(t, 1)) == Some(x));
    assert(decimal_of(field(t, 2)) == Some(y));
}

/// Parsing the text of a valid color gives the color back.
pub proof fn lemma_color_round_trip(c: ColorValue)
    requires
        c.valid(),
    ensures
        color_of(color_text(c)) == Some(c),
{
    match c {
        ColorValue::Rgb(r, g, b) => lemma_rgb_round_trip(r, g, b),
        ColorValue::Hsv(h, s, v) => lemma_hsv_round_trip(h, s, v),
        ColorValue::Xyz(x, y) => lemma_xyz_round_trip(x, y),
    }
}

/// Round trip: every value in the legal domain of a property decodes, from
/// its own encoding under that property's format, to itself.
pub proof fn lemma_round_trip(v: ValueView, p: PropertyView)
    requires
        in_domain(v, p),
    ensures
        decode_view(encode_view(v, p.format), p) == Ok::<ValueView, DecodeError>(v),
{
    match v {
        ValueView::Integer(i) => lemma_integer_round_trip(i),
        ValueView::Float(d) => lemma_decimal_round_trip(d),
        ValueView::Color(c) => lemma_color_round_trip(c),
        _ => {},
    }
}

} // verus!
