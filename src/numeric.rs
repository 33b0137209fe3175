//! Decimal text: integer and fixed-point literals, parsed from and rendered to
//! their wire form.
//!
//! A fractional number is held as a [`Decimal`]: an integer mantissa and the
//! number of digits after the decimal point. Literals have the shape
//! `[+|-]digits[.digits]`; exponent notation is not part of the wire form
//! handled here.
use vstd::prelude::*;



verus! {

/// The largest number of fractional digits a [`Decimal`] may carry.
pub const MAX_SCALE: u32 = 18;

/// Accumulated magnitudes are capped here: one past the largest magnitude
/// (2^63, that of `i64::MIN`) that an `i64` mantissa can take.
const MAGNITUDE_CAP: i128 = 9223372036854775809;

/// Fractional digit counts are capped here: one past [`MAX_SCALE`].
const SCALE_CAP: u32 = 19;

pub open spec fn is_digit(c: char) -> bool {
    '0' <= c && c <= '9'
}

pub open spec fn digit_value(c: char) -> int {
    (c as u32) as int - 48
}

pub open spec fn digit_char(d: int) -> char {
    if d <= 0 {
        '0'
    } else if d == 1 {
        '1'
    } else if d == 2 {
        '2'
    } else if d == 3 {
        '3'
    } else if d == 4 {
        '4'
    } else if d == 5 {
        '5'
    } else if d == 6 {
        '6'
    } else if d == 7 {
        '7'
    } else if d == 8 {
        '8'
    } else {
        '9'
    }
}

pub open spec fn pow10(n: nat) -> int
    decreases n,
{
    if n == 0 {
        1
    } else {
        10 * pow10((n - 1) as nat)
    }
}

pub open spec fn all_digits(s: Seq<char>) -> bool {
    forall|i: int| 0 <= i < s.len() ==> is_digit(#[trigger] s[i])
}

/// The number that a run of decimal digits denotes.
pub open spec fn digits_value(s: Seq<char>) -> int
    decreases s.len(),
{
    if s.len() == 0 {
        0
    } else {
        digits_value(s.drop_last()) * 10 + digit_value(s.last())
    }
}

pub open spec fn negative(s: Seq<char>) -> bool {
    s.len() > 0 && s[0] == '-'
}

/// The literal without its sign, if it has one.
pub open spec fn unsigned_part(s: Seq<char>) -> Seq<char> {
    if s.len() > 0 && (s[0] == '-' || s[0] == '+') {
        s.drop_first()
    } else {
        s
    }
}

pub open spec fn in_i64(v: int) -> bool {
    i64::MIN <= v <= i64::MAX
}

/// The integer an optionally signed run of digits denotes.
pub open spec fn integer_literal(s: Seq<char>) -> Option<int> {
    let body = unsigned_part(s);
    if body.len() > 0 && all_digits(body) {
        Some(
            if negative(s) {
                -digits_value(body)
            } else {
                digits_value(body)
            },
        )
    } else {
        None
    }
}

/// The `i64` a text denotes, when it is an integer literal within range.
pub open spec fn integer_of(s: Seq<char>) -> Option<i64> {
    match integer_literal(s) {
        Some(v) => if in_i64(v) {
            Some(v as i64)
        } else {
            None
        },
        None => None,
    }
}

/// What has been read of an unsigned decimal literal, one character at a time.
pub struct NumberScan {
    pub ok: bool,
    pub dot: bool,
    pub int_digits: nat,
    pub frac_digits: nat,
    pub magnitude: int,
}

pub open spec fn scan_step(p: NumberScan, c: char) -> NumberScan {
    if !p.ok {
        p
    } else if is_digit(c) {
        NumberScan {
            ok: true,
            dot: p.dot,
            int_digits: if p.dot {
                p.int_digits
            } else {
                p.int_digits + 1
            },
            frac_digits: if p.dot {
                p.frac_digits + 1
            } else {
                p.frac_digits
            },
            magnitude: p.magnitude * 10 + digit_value(c),
        }
    } else if c == '.' && !p.dot && p.int_digits > 0 {
        NumberScan {
            ok: true,
            dot: true,
            int_digits: p.int_digits,
            frac_digits: p.frac_digits,
            magnitude: p.magnitude,
        }
    } else {
        NumberScan {
            ok: false,
            dot: p.dot,
            int_digits: p.int_digits,
            frac_digits: p.frac_digits,
            magnitude: p.magnitude,
        }
    }
}

pub open spec fn scan_start() -> NumberScan {
    NumberScan { ok: true, dot: false, int_digits: 0, frac_digits: 0, magnitude: 0 }
}

pub open spec fn scan(s: Seq<char>) -> NumberScan
    decreases s.len(),
{
    if s.len() == 0 {
        scan_start()
    } else {
        scan_step(scan(s.drop_last()), s.last())
    }
}

/// The mantissa and fractional digit count of `[+|-]digits[.digits]`.
pub open spec fn decimal_literal(s: Seq<char>) -> Option<(int, nat)> {
    let sc = scan(unsigned_part(s));
    if sc.ok && sc.int_digits > 0 && (!sc.dot || sc.frac_digits > 0) {
        Some(
            (
                if negative(s) {
                    -sc.magnitude
                } else {
                    sc.magnitude
                },
                sc.frac_digits,
            ),
        )
    } else {
        None
    }
}

/// The [`Decimal`] a text denotes, when its mantissa and scale are in range.
///
/// Only plain decimal literals `[+|-]digits[.digits]` are numbers here: at
/// least one digit before the point and one after it, at most
/// [`MAX_SCALE`] fractional digits, and a mantissa within `i64`. Exponent
/// notation (`1e2`), a bare fraction (`.5`), a trailing point (`5.`) and
/// non-finite words (`NaN`, `inf`) are not accepted.
pub open spec fn decimal_of(s: Seq<char>) -> Option<Decimal> {
    match decimal_literal(s) {
        Some(p) => if in_i64(p.0) && p.1 <= MAX_SCALE {
            Some(Decimal { mantissa: p.0 as i64, scale: p.1 as u32 })
        } else {
            None
        },
        None => None,
    }
}

/// The shortest run of digits that denotes `n`.
pub open spec fn digits_of(n: nat) -> Seq<char>
    decreases n,
{
    if n < 10 {
        seq![digit_char(n as int)]
    } else {
        digits_of(n / 10).push(digit_char((n % 10) as int))
    }
}

pub open spec fn abs(v: int) -> nat {
    if v < 0 {
        (-v) as nat
    } else {
        v as nat
    }
}

/// The wire text of an integer: its digits, after a `-` when negative.
pub open spec fn integer_text(v: int) -> Seq<char> {
    if v < 0 {
        seq!['-'] + digits_of(abs(v))
    } else {
        digits_of(abs(v))
    }
}

pub open spec fn zeros(k: nat) -> Seq<char> {
    Seq::new(k, |i: int| '0')
}

/// The digits of `n`, with leading zeros up to `width` characters.
pub open spec fn padded_digits(n: nat, width: nat) -> Seq<char> {
    let d = digits_of(n);
    if d.len() < width {
        zeros((width - d.len()) as nat) + d
    } else {
        d
    }
}

/// A fixed-point number: `mantissa / 10^scale`.
#[derive(Clone, Copy, Debug, PartialEq, Eq, Structural)]
pub struct Decimal {
    pub mantissa: i64,
    pub scale: u32,
}

impl Decimal {
    pub open spec fn well_formed(self) -> bool {
        self.scale <= MAX_SCALE
    }

    /// `self` denotes a number no greater than `other` does.
    pub open spec fn spec_at_most(self, other: Decimal) -> bool {
        self.mantissa * pow10(other.scale as nat) <= other.mantissa * pow10(self.scale as nat)
    }

    /// The wire text: the digits of the mantissa, with a point before the last
    /// `scale` of them (padded with zeros so one digit precedes the point).
    pub open spec fn text(self) -> Seq<char> {
        let k = self.scale as nat;
        let body = padded_digits(abs(self.mantissa as int), k + 1);
        let split = body.len() - k;
        let unsigned = if k == 0 {
            body
        } else {
            body.subrange(0, split) + seq!['.'] + body.subrange(split, body.len() as int)
        };
        if self.mantissa < 0 {
            seq!['-'] + unsigned
        } else {
            unsigned
        }
    }

    /// Compares the numbers two well-formed decimals denote.
    pub fn at_most(&self, other: &Decimal) -> (r: bool)
        requires
            self.well_formed(),
            other.well_formed(),
        ensures
            r == self.spec_at_most(*other),
    {
        let p_self = pow10_of(self.scale);
        let p_other = pow10_of(other.scale);
        proof {
            lemma_scaled_fits(self.mantissa as int, p_other as int);
            lemma_scaled_fits(other.mantissa as int, p_self as int);
        }
        (self.mantissa as i128) * p_other <= (other.mantissa as i128) * p_self
    }
}

pub proof fn lemma_pow10_monotone(a: nat, b: nat)
    requires
        a <= b,
    ensures
        1 <= pow10(a) <= pow10(b),
    decreases b,
{
    if b > a {
        lemma_pow10_monotone(a, (b - 1) as nat);
    } else {
        lemma_pow10_positive(a);
    }
}

proof fn lemma_pow10_positive(n: nat)
    ensures
        pow10(n) >= 1,
    decreases n,
{
    if n > 0 {
        lemma_pow10_positive((n - 1) as nat);
    }
}

proof fn lemma_pow10_max()
    ensures
        pow10(MAX_SCALE as nat) == 1_000_000_000_000_000_000,
{
    reveal_with_fuel(pow10, 19);
}

proof fn lemma_scaled_fits(m: int, p: int)
    requires
        i64::MIN <= m <= i64::MAX,
        1 <= p <= 1_000_000_000_000_000_000,
    ensures
        i128::MIN <= m * p <= i128::MAX,
{
    assert(-9223372036854775808 * 1_000_000_000_000_000_000 <= m * p <= 9223372036854775807
        * 1_000_000_000_000_000_000) by (nonlinear_arith)
        requires
            -9223372036854775808 <= m <= 9223372036854775807,
            1 <= p <= 1_000_000_000_000_000_000,
    ;
}

/// `10^n` for the scales a [`Decimal`] may carry.
pub fn pow10_of(n: u32) -> (r: i128)
    requires
        n <= MAX_SCALE,
    ensures
        r == pow10(n as nat),
        1 <= r <= 1_000_000_000_000_000_000,
{
    let mut r: i128 = 1;
    let mut i: u32 = 0;
    while i < n
        invariant
            i <= n <= MAX_SCALE,
            r == pow10(i as nat),
        decreases n - i,
    {
        proof {
            lemma_pow10_monotone((i + 1) as nat, MAX_SCALE as nat);
            lemma_pow10_max();
        }
        r = r * 10;
        i = i + 1;
    }
    proof {
        lemma_pow10_monotone(n as nat, MAX_SCALE as nat);
        lemma_pow10_max();
    }
    r
}

// ---------------------------------------------------------------------------
// Parsing
// ---------------------------------------------------------------------------

fn digit_of(c: char) -> (r: Option<u8>)
    ensures
        r == (if is_digit(c) {
            Some(digit_value(c) as u8)
        } else {
            None::<u8>
        }),
{
    if '0' <= c && c <= '9' {
        Some(((c as u32) - 48) as u8)
    } else {
        None
    }
}

/// Reads the unsigned part of a literal, `cs[start..end]`; the magnitude and
/// fractional count come back capped at the first values out of range.
fn scan_chars(cs: &Vec<char>, start: usize, end: usize) -> (r: (bool, bool, u64, u32, i128))
    requires
        start <= end <= cs@.len(),
    ensures
        ({
            let sc = scan(cs@.subrange(start as int, end as int));
            &&& r.0 == sc.ok
            &&& r.1 == sc.dot
            &&& (r.2 > 0) == (sc.int_digits > 0)
            &&& r.3 as int == if sc.frac_digits < SCALE_CAP {
                sc.frac_digits as int
            } else {
                SCALE_CAP as int
            }
            &&& r.4 as int == if sc.magnitude < MAGNITUDE_CAP {
                sc.magnitude
            } else {
                MAGNITUDE_CAP as int
            }
            &&& sc.magnitude >= 0
        }),
{
    let mut ok = true;
    let mut dot = false;
    let mut int_digits: u64 = 0;
    let mut frac: u32 = 0;
    let mut mag: i128 = 0;
    let mut i: usize = start;
    while i < end
        invariant
            start <= i <= end <= cs@.len(),
            ({
                let sc = scan(cs@.subrange(start as int, i as int));
                &&& ok == sc.ok
                &&& dot == sc.dot
                &&& (int_digits > 0) == (sc.int_digits > 0)
                &&& frac as int == if sc.frac_digits < SCALE_CAP {
                    sc.frac_digits as int
                } else {
                    SCALE_CAP as int
                }
                &&& mag as int == if sc.magnitude < MAGNITUDE_CAP {
                    sc.magnitude
                } else {
                    MAGNITUDE_CAP as int
                }
                &&& sc.magnitude >= 0
            }),
        decreases end - i,
    {
        let c = cs[i];
        proof {
            let next = cs@.subrange(start as int, i + 1);
            assert(next.drop_last() =~= cs@.subrange(start as int, i as int));
            assert(next.last() == c);
        }
        if ok {
            match digit_of(c) {
                Some(d) => {
                    if mag < MAGNITUDE_CAP {
                        mag = mag * 10 + d as i128;
                        if mag > MAGNITUDE_CAP {
                            mag = MAGNITUDE_CAP;
                        }
                    }
                    if dot {
                        if frac < SCALE_CAP {
                            frac = frac + 1;
                        }
                    } else {
                        int_digits = 1;
                    }
                },
                None => {
                    if c == '.' && !dot && int_digits > 0 {
                        dot = true;
                    } else {
                        ok = false;
                    }
                },
            }
        }
        i = i + 1;
    }
    (ok, dot, int_digits, frac, mag)
}

/// Parses `cs[start..end]` as an integer literal that fits in an `i64`.
pub fn parse_integer(cs: &Vec<char>, start: usize, end: usize) -> (r: Option<i64>)
    requires
        start <= end <= cs@.len(),
    ensures
        r == integer_of(cs@.subrange(start as int, end as int)),
{
    let ghost s = cs@.subrange(start as int, end as int);
    let mut body_start = start;
    let mut neg = false;
    if start < end && (cs[start] == '-' || cs[start] == '+') {
        neg = cs[start] == '-';
        body_start = start + 1;
    }
    proof {
        assert(cs@.subrange(body_start as int, end as int) =~= unsigned_part(s));
    }
    let (ok, dot, int_digits, _frac, mag) = scan_chars(cs, body_start, end);
    proof {
        lemma_scan_digits(unsigned_part(s));
    }
    if !ok || dot || int_digits == 0 {
        return None;
    }
    if neg {
        if mag <= 9223372036854775808 {
            Some((0 - mag) as i64)
        } else {
            None
        }
    } else {
        if mag <= 9223372036854775807 {
            Some(mag as i64)
        } else {
            None
        }
    }
}

/// Parses `cs[start..end]` as a decimal literal whose mantissa fits in an
/// `i64` and whose scale is at most [`MAX_SCALE`].
pub fn parse_decimal(cs: &Vec<char>, start: usize, end: usize) -> (r: Option<Decimal>)
    requires
        start <= end <= cs@.len(),
    ensures
        r == decimal_of(cs@.subrange(start as int, end as int)),
        r matches Some(d) ==> d.well_formed(),
{
    let ghost s = cs@.subrange(start as int, end as int);
    let mut body_start = start;
    let mut neg = false;
    if start < end && (cs[start] == '-' || cs[start] == '+') {
        neg = cs[start] == '-';
        body_start = start + 1;
    }
    proof {
        assert(cs@.subrange(body_start as int, end as int) =~= unsigned_part(s));
    }
    let (ok, dot, int_digits, frac, mag) = scan_chars(cs, body_start, end);
    if !ok || int_digits == 0 || (dot && frac == 0) || frac > MAX_SCALE {
        return None;
    }
    if neg {
        if mag <= 9223372036854775808 {
            Some(Decimal { mantissa: (0 - mag) as i64, scale: frac })
        } else {
            None
        }
    } else {
        if mag <= 9223372036854775807 {
            Some(Decimal { mantissa: mag as i64, scale: frac })
        } else {
            None
        }
    }
}

/// A run of digits scans as an integer without a point.
pub proof fn lemma_scan_digits(s: Seq<char>)
    ensures
        all_digits(s) ==> scan(s) == (NumberScan {
            ok: true,
            dot: false,
            int_digits: s.len(),
            frac_digits: 0,
            magnitude: digits_value(s),
        }),
        !all_digits(s) ==> !scan(s).ok || scan(s).dot,
    decreases s.len(),
{
    if s.len() > 0 {
        let p = s.drop_last();
        lemma_scan_digits(p);
        if all_digits(s) {
            assert(all_digits(p)) by {
                assert forall|i: int| 0 <= i < p.len() implies is_digit(#[trigger] p[i]) by {
                    assert(p[i] == s[i]);
                }
            }
            assert(is_digit(s[s.len() - 1]));
        } else if all_digits(p) {
            let k = choose|k: int| 0 <= k < s.len() && !is_digit(#[trigger] s[k]);
            assert(k == s.len() - 1) by {
                if k < s.len() - 1 {
                    assert(p[k] == s[k]);
                }
            }
        }
    }
}

// ---------------------------------------------------------------------------
// Rendering
// ---------------------------------------------------------------------------

/// A one-character text for each digit and for the signs and separators that
/// rendered numbers and colors use.
pub open spec fn renderable(c: char) -> bool {
    is_digit(c) || c == '-' || c == '.'
}

fn char_text(c: char) -> (r: &'static str)
    requires
        renderable(c),
    ensures
        r@ == seq![c],
{
    proof {
        reveal_strlit("0");
        reveal_strlit("1");
        reveal_strlit("2");
        reveal_strlit("3");
        reveal_strlit("4");
        reveal_strlit("5");
        reveal_strlit("6");
        reveal_strlit("7");
        reveal_strlit("8");
        reveal_strlit("9");
        reveal_strlit("-");
        reveal_strlit(".");
    }
    if c == '0' {
        "0"
    } else if c == '1' {
        "1"
    } else if c == '2' {
        "2"
    } else if c == '3' {
        "3"
    } else if c == '4' {
        "4"
    } else if c == '5' {
        "5"
    } else if c == '6' {
        "6"
    } else if c == '7' {
        "7"
    } else if c == '8' {
        "8"
    } else if c == '9' {
        "9"
    } else if c == '-' {
        "-"
    } else {
        "."
    }
}

/// Appends renderable characters to a text.
pub fn append_chars(out: &mut String, cs: &Vec<char>)
    requires
        forall|i: int| 0 <= i < cs@.len() ==> renderable(#[trigger] cs@[i]),
    ensures
        final(out)@ == old(out)@ + cs@,
{
    let mut i: usize = 0;
    while i < cs.len()
        invariant
            i <= cs@.len(),
            forall|j: int| 0 <= j < cs@.len() ==> renderable(#[trigger] cs@[j]),
            out@ == old(out)@ + cs@.subrange(0, i as int),
        decreases cs@.len() - i,
    {
        out.append(char_text(cs[i]));
        proof {
            assert(cs@.subrange(0, i + 1) =~= cs@.subrange(0, i as int).push(cs@[i as int]));
        }
        i = i + 1;
    }
    proof {
        assert(cs@.subrange(0, cs@.len() as int) =~= cs@);
    }
}

proof fn lemma_digit_char(d: int)
    requires
        0 <= d <= 9,
    ensures
        is_digit(digit_char(d)),
        digit_value(digit_char(d)) == d,
{
}

fn push_digits(out: &mut Vec<char>, n: u64)
    ensures
        final(out)@ == old(out)@ + digits_of(n as nat),
    decreases n,
{
    if n >= 10 {
        push_digits(out, n / 10);
    }
    let d = n % 10;
    let c = if d == 0 {
        '0'
    } else if d == 1 {
        '1'
    } else if d == 2 {
        '2'
    } else if d == 3 {
        '3'
    } else if d == 4 {
        '4'
    } else if d == 5 {
        '5'
    } else if d == 6 {
        '6'
    } else if d == 7 {
        '7'
    } else if d == 8 {
        '8'
    } else {
        '9'
    };
    assert(c == digit_char(d as int));
    out.push(c);
    proof {
        if n >= 10 {
            assert(
                digits_of(n as nat) == digits_of((n / 10) as nat).push(digit_char((n % 10) as int))
            );
        }
    }
    assert(final(out)@ =~= old(out)@ + digits_of(n as nat));
}

/// The digits of a number are digits, at least one of them, with its value.
pub proof fn lemma_digits_of(n: nat)
    ensures
        digits_of(n).len() >= 1,
        all_digits(digits_of(n)),
        digits_value(digits_of(n)) == n,
        is_digit(digits_of(n)[0]),
    decreases n,
{
    if n < 10 {
        lemma_digit_char(n as int);
        assert(digits_of(n).drop_last() =~= Seq::<char>::empty());
        assert(digits_value(Seq::<char>::empty()) == 0);
    } else {
        lemma_digits_of(n / 10);
        lemma_digit_char((n % 10) as int);
        let d = digits_of(n);
        assert(d.drop_last() =~= digits_of(n / 10));
        assert(d.last() == digit_char((n % 10) as int));
        assert(digit_value(d.last()) == n % 10);
        assert(digits_value(digits_of(n / 10)) == n / 10);
        assert(digits_value(d) == digits_value(digits_of(n / 10)) * 10 + digit_value(d.last()));
        assert((n / 10) * 10 + n % 10 == n);
        assert forall|i: int| 0 <= i < d.len() implies is_digit(#[trigger] d[i]) by {
            if i < d.len() - 1 {
                assert(d[i] == digits_of(n / 10)[i]);
            }
        }
        assert(d[0] == digits_of(n / 10)[0]);
    }
}

fn magnitude(v: i64) -> (r: u64)
    ensures
        r as nat == abs(v as int),
{
    if v < 0 {
        (0 - (v as i128)) as u64
    } else {
        v as u64
    }
}

/// The wire text of an integer.
pub fn render_integer(v: i64) -> (r: String)
    ensures
        r@ == integer_text(v as int),
{
    let mut cs: Vec<char> = Vec::new();
    if v < 0 {
        cs.push('-');
    }
    push_digits(&mut cs, magnitude(v));
    proof {
        lemma_digits_of(abs(v as int));
        let d = digits_of(abs(v as int));
        assert forall|i: int| 0 <= i < cs@.len() implies renderable(#[trigger] cs@[i]) by {
            if v < 0 {
                if i > 0 {
                    assert(cs@[i] == d[i - 1]);
                }
            } else {
                assert(cs@[i] == d[i]);
            }
        }
        if v < 0 {
            assert(cs@ =~= seq!['-'] + d);
        } else {
            assert(cs@ =~= d);
        }
    }
    let mut out = String::new();
    append_chars(&mut out, &cs);
    proof {
        assert(out@ =~= cs@);
    }
    out
}

/// The wire text of a decimal.
pub fn render_decimal(d: Decimal) -> (r: String)
    ensures
        r@ == d.text(),
{
    let ghost k = d.scale as nat;
    let mut digits: Vec<char> = Vec::new();
    push_digits(&mut digits, magnitude(d.mantissa));
    proof {
        lemma_digits_of(abs(d.mantissa as int));
        assert(digits@ =~= digits_of(abs(d.mantissa as int)));
    }
    // Leading zeros, so that at least one digit precedes the point.
    let mut body: Vec<char> = Vec::new();
    let width: u64 = d.scale as u64 + 1;
    let mut fill: u64 = if (digits.len() as u64) < width {
        width - digits.len() as u64
    } else {
        0
    };
    let ghost fill_total = fill;
    while fill > 0
        invariant
            fill <= fill_total,
            body@ =~= zeros((fill_total - fill) as nat),
        decreases fill,
    {
        body.push('0');
        fill = fill - 1;
    }
    let mut i: usize = 0;
    while i < digits.len()
        invariant
            i <= digits@.len(),
            body@ =~= zeros(fill_total as nat) + digits@.subrange(0, i as int),
        decreases digits@.len() - i,
    {
        body.push(digits[i]);
        i = i + 1;
    }
    proof {
        assert(digits@.subrange(0, digits@.len() as int) =~= digits@);
        assert(body@ =~= padded_digits(abs(d.mantissa as int), k + 1));
    }
    let ghost pd = body@;
    let split: usize = body.len() - d.scale as usize;
    let mut cs: Vec<char> = Vec::new();
    if d.mantissa < 0 {
        cs.push('-');
    }
    let ghost sign_len = cs@.len();
    let mut j: usize = 0;
    while j < body.len()
        invariant
            body@ == pd,
            split <= pd.len(),
            split == pd.len() - d.scale,
            j <= pd.len(),
            sign_len == (if d.mantissa < 0 {
                1int
            } else {
                0int
            }),
            d.mantissa < 0 ==> cs@[0] == '-',
            cs@.len() == sign_len + j + (if d.scale > 0 && j > split {
                1int
            } else {
                0int
            }),
            j <= split ==> cs@.subrange(sign_len as int, cs@.len() as int) =~= pd.subrange(
                0,
                j as int,
            ),
            j > split ==> d.scale > 0 && cs@.subrange(sign_len as int, cs@.len() as int)
                =~= pd.subrange(0, split as int) + seq!['.'] + pd.subrange(split as int, j as int),
        decreases pd.len() - j,
    {
        let ghost before = cs@.subrange(sign_len as int, cs@.len() as int);
        if j == split && d.scale > 0 {
            cs.push('.');
        }
        cs.push(body[j]);
        proof {
            let after = cs@.subrange(sign_len as int, cs@.len() as int);
            if j == split && d.scale > 0 {
                assert(after =~= before.push('.').push(pd[j as int]));
                assert(before =~= pd.subrange(0, split as int));
                assert(after =~= pd.subrange(0, split as int) + seq!['.'] + pd.subrange(
                    split as int,
                    j + 1,
                ));
            } else {
                assert(after =~= before.push(pd[j as int]));
                if j < split || d.scale == 0 {
                    assert(after =~= pd.subrange(0, j + 1));
                } else {
                    assert(after =~= pd.subrange(0, split as int) + seq!['.'] + pd.subrange(
                        split as int,
                        j + 1,
                    ));
                }
            }
        }
        j = j + 1;
    }
    proof {
        let u = cs@.subrange(sign_len as int, cs@.len() as int);
        if d.scale > 0 {
            assert(u =~= pd.subrange(0, split as int) + seq!['.'] + pd.subrange(
                split as int,
                pd.len() as int,
            ));
        } else {
            assert(pd.subrange(0, pd.len() as int) =~= pd);
            assert(u =~= pd);
        }
        if d.mantissa < 0 {
            assert(cs@ =~= seq!['-'] + u);
        } else {
            assert(cs@ =~= u);
        }
        lemma_digits_of(abs(d.mantissa as int));
        assert forall|x: int| 0 <= x < cs@.len() implies renderable(#[trigger] cs@[x]) by {
            lemma_padded_chars(abs(d.mantissa as int), k + 1);
        }
    }
    let mut out = String::new();
    append_chars(&mut out, &cs);
    proof {
        assert(out@ =~= cs@);
    }
    out
}

pub proof fn lemma_padded_chars(n: nat, width: nat)
    ensures
        all_digits(padded_digits(n, width)),
        padded_digits(n, width).len() >= width,
        padded_digits(n, width).len() >= 1,
        digits_value(padded_digits(n, width)) == n,
{
    lemma_digits_of(n);
    let d = digits_of(n);
    if d.len() < width {
        let z = zeros((width - d.len()) as nat);
        let p = z + d;
        assert forall|i: int| 0 <= i < p.len() implies is_digit(#[trigger] p[i]) by {
            if i >= z.len() {
                assert(p[i] == d[i - z.len()]);
            }
        }
        lemma_digits_value_concat(z, d);
        lemma_zeros_value(z.len());
    }
}

proof fn lemma_zeros_value(k: nat)
    ensures
        digits_value(zeros(k)) == 0,
    decreases k,
{
    if k > 0 {
        assert(zeros(k).drop_last() =~= zeros((k - 1) as nat));
        lemma_zeros_value((k - 1) as nat);
    }
}

/// The value of two runs of digits written one after the other.
pub proof fn lemma_digits_value_concat(a: Seq<char>, b: Seq<char>)
    ensures
        digits_value(a + b) == digits_value(a) * pow10(b.len()) + digits_value(b),
    decreases b.len(),
{
    if b.len() == 0 {
        assert(a + b =~= a);
    } else {
        assert((a + b).drop_last() =~= a + b.drop_last());
        assert((a + b).last() == b.last());
        lemma_digits_value_concat(a, b.drop_last());
        assert(digits_value(a) * pow10(b.len()) == digits_value(a) * pow10(
            (b.len() - 1) as nat,
        ) * 10) by (nonlinear_arith)
            requires
                pow10(b.len()) == 10 * pow10((b.len() - 1) as nat),
        ;
    }
}

/// Scanning digits after what has been read extends the number read.
proof fn lemma_scan_append_digits(a: Seq<char>, b: Seq<char>)
    requires
        scan(a).ok,
        all_digits(b),
    ensures
        scan(a + b) == (NumberScan {
            ok: true,
            dot: scan(a).dot,
            int_digits: if scan(a).dot {
                scan(a).int_digits
            } else {
                scan(a).int_digits + b.len()
            },
            frac_digits: if scan(a).dot {
                scan(a).frac_digits + b.len()
            } else {
                scan(a).frac_digits
            },
            magnitude: scan(a).magnitude * pow10(b.len()) + digits_value(b),
        }),
    decreases b.len(),
{
    if b.len() == 0 {
        assert(a + b =~= a);
    } else {
        let bp = b.drop_last();
        assert(all_digits(bp)) by {
            assert forall|i: int| 0 <= i < bp.len() implies is_digit(#[trigger] bp[i]) by {
                assert(bp[i] == b[i]);
            }
        }
        assert(is_digit(b[b.len() - 1]));
        assert((a + b).drop_last() =~= a + bp);
        assert((a + b).last() == b.last());
        lemma_scan_append_digits(a, bp);
        let m = scan(a).magnitude;
        assert(m * pow10(b.len()) == m * pow10(bp.len()) * 10) by (nonlinear_arith)
            requires
                pow10(b.len()) == 10 * pow10(bp.len()),
        ;
    }
}

/// Parsing the text of an integer gives the integer back.
pub proof fn lemma_integer_round_trip(v: i64)
    ensures
        integer_of(integer_text(v as int)) == Some(v),
{
    let t = integer_text(v as int);
    lemma_digits_of(abs(v as int));
    let d = digits_of(abs(v as int));
    if v < 0 {
        assert(t[0] == '-');
        assert(unsigned_part(t) =~= d);
    } else {
        assert(t[0] == d[0]);
        assert(unsigned_part(t) =~= d);
    }
}

/// Parsing the text of a well-formed decimal gives the decimal back.
pub proof fn lemma_decimal_round_trip(d: Decimal)
    requires
        d.well_formed(),
    ensures
        decimal_of(d.text()) == Some(d),
{
    let k = d.scale as nat;
    let n = abs(d.mantissa as int);
    let body = padded_digits(n, k + 1);
    lemma_padded_chars(n, k + 1);
    let split = body.len() - k;
    let unsigned = if k == 0 {
        body
    } else {
        body.subrange(0, split) + seq!['.'] + body.subrange(split, body.len() as int)
    };
    let t = d.text();
    assert(unsigned[0] == body[0]);
    assert(is_digit(body[0]));
    if d.mantissa < 0 {
        assert(t[0] == '-');
        assert(unsigned_part(t) =~= unsigned);
    } else {
        assert(unsigned_part(t) =~= unsigned);
    }
    lemma_scan_digits(body);
    if k == 0 {
        assert(scan(unsigned).magnitude == n);
    } else {
        let ip = body.subrange(0, split);
        let fp = body.subrange(split, body.len() as int);
        assert(all_digits(ip)) by {
            assert forall|i: int| 0 <= i < ip.len() implies is_digit(#[trigger] ip[i]) by {
                assert(ip[i] == body[i]);
            }
        }
        assert(all_digits(fp)) by {
            assert forall|i: int| 0 <= i < fp.len() implies is_digit(#[trigger] fp[i]) by {
                assert(fp[i] == body[i + split]);
            }
        }
        lemma_scan_digits(ip);
        let withdot = ip + seq!['.'];
        assert(withdot.drop_last() =~= ip);
        assert(withdot.last() == '.');
        assert(scan(withdot).dot);
        lemma_scan_append_digits(withdot, fp);
        assert(unsigned =~= withdot + fp);
        lemma_digits_value_concat(ip, fp);
        assert(ip + fp =~= body);
    }
}

} // verus!
