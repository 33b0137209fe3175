//! Build-time checks of a node schema: property ids in the protocol's id
//! alphabet and unique within the node, and each value format suited to its
//! datatype and able to hold a value.
use vstd::prelude::*;

use crate::codec::{fits, format_fits, range_well_formed};
use crate::format::{
    FloatRange, FormatView, IntegerRange, NodeSchema, PropertyView, SchemaView, ValueFormat, texts,
};

verus! {

pub open spec fn is_id_char(c: char) -> bool {
    ('a' <= c && c <= 'z') || ('0' <= c && c <= '9') || c == '-'
}

/// Every character is a lowercase letter, a digit or a hyphen.
pub open spec fn id_chars(s: Seq<char>) -> bool
    decreases s.len(),
{
    s.len() == 0 || (is_id_char(s[0]) && id_chars(s.drop_first()))
}

/// A protocol id: non-empty, of lowercase letters, digits and hyphens.
pub open spec fn valid_id(s: Seq<char>) -> bool {
    s.len() > 0 && id_chars(s)
}

/// Relies on homie5's `HomieID::validate`, which accepts exactly the
/// non-empty ids whose bytes are `a`-`z`, `0`-`9` or `-`.
#[verifier::external_body]
fn homie_id_valid(id: &str) -> (r: bool)
    ensures
        r == valid_id(id@),
{
    homie5::HomieID::validate(id).is_ok()
}

/// What makes a schema unfit to be advertised.
#[derive(Debug, PartialEq, Eq, Clone, Copy, Structural)]
pub enum SchemaError {
    /// A property id is empty or has a character outside `a`-`z`, `0`-`9`, `-`.
    InvalidId,
    /// Two properties share an id.
    DuplicateId,
    /// A value format does not suit its property's datatype.
    FormatMismatch,
    /// A value format admits no value: an enum set without tokens or with an
    /// empty token, boolean words that are empty or equal, or no color
    /// encoding.
    InvalidFormat,
}

pub open spec fn format_empty(format: FormatView) -> bool {
    match format {
        FormatView::EnumSet(t) => {
            t.len() == 0 || exists|k: int| 0 <= k < t.len() && t[k].len() == 0
        },
        FormatView::BooleanWords { false_word, true_word } => false_word.len() == 0
            || true_word.len() == 0 || false_word == true_word,
        FormatView::ColorEncodings(c) => c.len() == 0,
        FormatView::IntegerRange(r) => integer_range_empty(r),
        FormatView::FloatRange(r) => float_range_empty(r),
        _ => false,
    }
}

/// An integer range that admits no value, or has a step that is not positive.
pub open spec fn integer_range_empty(r: IntegerRange) -> bool {
    (match (r.min, r.max) {
        (Some(a), Some(b)) => a > b,
        _ => false,
    }) || (match r.step {
        Some(step) => step <= 0,
        None => false,
    })
}

/// A decimal range that admits no value, or has a step that is not positive.
pub open spec fn float_range_empty(r: FloatRange) -> bool {
    (match (r.min, r.max) {
        (Some(a), Some(b)) => !a.spec_at_most(b),
        _ => false,
    }) || (match r.step {
        Some(step) => step.mantissa <= 0,
        None => false,
    })
}

/// A decimal range a property can be declared with: bounds within the
/// scale a decimal may carry, admitting at least one value, with a positive
/// step if any.
pub open spec fn float_range_usable(r: FloatRange) -> bool {
    range_well_formed(r) && !float_range_empty(r)
}

/// The problem with the `i`th property, given those before it.
pub open spec fn property_problem(props: Seq<PropertyView>, i: int) -> Option<SchemaError> {
    let p = props[i];
    if !valid_id(p.id) {
        Some(SchemaError::InvalidId)
    } else if exists|j: int| 0 <= j < i && props[j].id == p.id {
        Some(SchemaError::DuplicateId)
    } else if !format_fits(p.datatype, p.format) {
        Some(SchemaError::FormatMismatch)
    } else if format_empty(p.format) {
        Some(SchemaError::InvalidFormat)
    } else {
        None
    }
}

/// The problem with the first faulty property among the first `n`.
pub open spec fn first_problem(props: Seq<PropertyView>, n: int) -> Option<SchemaError>
    decreases n,
{
    if n <= 0 {
        None
    } else {
        match first_problem(props, n - 1) {
            Some(e) => Some(e),
            None => property_problem(props, n - 1),
        }
    }
}

/// Once a problem is found, later properties do not change it.
proof fn lemma_first_problem_stays(props: Seq<PropertyView>, m: int, n: int)
    requires
        0 <= m <= n,
        first_problem(props, m) is Some,
    ensures
        first_problem(props, n) == first_problem(props, m),
    decreases n - m,
{
    if n > m {
        lemma_first_problem_stays(props, m, n - 1);
    }
}

fn format_is_empty(format: &ValueFormat) -> (r: bool)
    requires
        format@ matches FormatView::FloatRange(range) ==> range_well_formed(range),
    ensures
        r == format_empty(format@),
{
    match format {
        ValueFormat::EnumSet(tokens) => {
            if tokens.len() == 0 {
                return true;
            }
            let mut k: usize = 0;
            while k < tokens.len()
                invariant
                    format@ == FormatView::EnumSet(texts(tokens@)),
                    k <= tokens@.len(),
                    forall|j: int| 0 <= j < k ==> (#[trigger] tokens@[j])@.len() != 0,
                decreases tokens@.len() - k,
            {
                if tokens[k].as_str().is_empty() {
                    proof {
                        let t = texts(tokens@);
                        assert(format@ == FormatView::EnumSet(t));
                        assert(t[k as int].len() == 0);
                        assert(exists|x: int| 0 <= x < t.len() && t[x].len() == 0);
                    }
                    return true;
                }
                k = k + 1;
            }
            proof {
                if let FormatView::EnumSet(t) = format@ {
                    assert forall|j: int| 0 <= j < t.len() implies t[j].len() != 0 by {
                        assert(t[j] == tokens@[j]@);
                    }
                }
            }
            false
        },
        ValueFormat::BooleanWords { false_word, true_word } => {
            false_word.as_str().is_empty() || true_word.as_str().is_empty() || *false_word
                == *true_word
        },
        ValueFormat::ColorEncodings(c) => c.len() == 0,
        ValueFormat::IntegerRange(r) => {
            let inverted = match (r.min, r.max) {
                (Some(a), Some(b)) => a > b,
                _ => false,
            };
            let bad_step = match r.step {
                Some(step) => step <= 0,
                None => false,
            };
            inverted || bad_step
        },
        ValueFormat::FloatRange(r) => {
            let inverted = match (r.min, r.max) {
                (Some(a), Some(b)) => !a.at_most(&b),
                _ => false,
            };
            let bad_step = match r.step {
                Some(step) => step.mantissa <= 0,
                None => false,
            };
            inverted || bad_step
        },
        _ => false,
    }
}

/// Checks a schema before it is advertised: the first faulty property, in
/// order, decides the error.
pub fn check_schema(schema: &NodeSchema) -> (r: Result<(), SchemaError>)
    ensures
        r == match first_problem(schema@.properties, schema@.properties.len() as int) {
            Some(e) => Err::<(), SchemaError>(e),
            None => Ok(()),
        },
{
    let ghost props = schema@.properties;
    let n = schema.properties.len();
    let mut i: usize = 0;
    while i < n
        invariant
            n == props.len(),
            props == schema@.properties,
            i <= n,
            first_problem(props, i as int) is None,
        decreases n - i,
    {
        let p = &schema.properties[i];
        assert(props[i as int] == p@);
        let problem = if !homie_id_valid(p.id.as_str()) {
            Some(SchemaError::InvalidId)
        } else {
            let mut dup = false;
            let mut j: usize = 0;
            while j < i
                invariant
                    i < n,
                    n == props.len(),
                    props == schema@.properties,
                    j <= i,
                    p@ == props[i as int],
                    dup ==> exists|k: int| 0 <= k < i && props[k].id == p@.id,
                    !dup ==> forall|k: int| 0 <= k < j ==> props[k].id != p@.id,
                decreases i - j,
            {
                if schema.properties[j].id == p.id {
                    assert(props[j as int].id == p@.id);
                    dup = true;
                }
                j = j + 1;
            }
            if dup {
                Some(SchemaError::DuplicateId)
            } else if !fits(p.datatype, &p.format) {
                Some(SchemaError::FormatMismatch)
            } else if format_is_empty(&p.format) {
                Some(SchemaError::InvalidFormat)
            } else {
                None
            }
        };
        assert(problem == property_problem(props, i as int));
        match problem {
            Some(e) => {
                proof {
                    lemma_first_problem_stays(props, i + 1, n as int);
                }
                return Err(e);
            },
            None => {},
        }
        i = i + 1;
    }
    Ok(())
}

/// The schema holds no faulty property.
pub open spec fn schema_valid(schema: SchemaView) -> bool {
    first_problem(schema.properties, schema.properties.len() as int) is None
}

} // verus!
