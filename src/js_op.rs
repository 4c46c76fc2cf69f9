//! JavaScript-style equality between JSON values.
//!
//! An array or an object is equal to no value here. JavaScript compares two
//! of them by identity, and two values handed to these functions are never
//! the same object; it would first turn one compared with a primitive into a
//! string, which this module does not do.
//!
//! A string takes part in a loose comparison with a number or a boolean
//! through the number it spells. White space around it is ignored; what is
//! left is zero when empty, and an optional sign followed by one to eighteen
//! decimal digits is that integer. Any other string spells no number here
//! and is loosely equal to no number.

use crate::value::{float_is_nan, float_is_zero, Json, Number, EXPONENT_MASK, FRACTION_MASK, MAGNITUDE_MASK};
use vstd::prelude::*;
use vstd::string::*;

verus! {

/// Whether two numbers are equal as numbers.
pub open spec fn spec_num_eq(x: Number, y: Number) -> bool {
    match (x, y) {
        (Number::Int(a), Number::Int(b)) => a == b,
        (Number::Float(a), Number::Float(b)) => (a == b && !float_is_nan(a)) || (float_is_zero(a)
            && float_is_zero(b)),
        (Number::Int(i), Number::Float(f)) => i == 0 && float_is_zero(f),
        (Number::Float(f), Number::Int(i)) => i == 0 && float_is_zero(f),
    }
}

fn num_eq(x: Number, y: Number) -> (r: bool)
    ensures
        r == spec_num_eq(x, y),
{
    match (x, y) {
        (Number::Int(a), Number::Int(b)) => a == b,
        (Number::Float(a), Number::Float(b)) => {
            let nan = a & EXPONENT_MASK == EXPONENT_MASK && a & FRACTION_MASK != 0;
            (a == b && !nan) || (a & MAGNITUDE_MASK == 0 && b & MAGNITUDE_MASK == 0)
        },
        (Number::Int(i), Number::Float(f)) => i == 0 && f & MAGNITUDE_MASK == 0,
        (Number::Float(f), Number::Int(i)) => i == 0 && f & MAGNITUDE_MASK == 0,
    }
}

/// Ten to the power `n`.
pub open spec fn pow10(n: nat) -> nat
    decreases n,
{
    if n == 0 {
        1
    } else {
        10 * pow10((n - 1) as nat)
    }
}

/// The value of a run of decimal digits.
pub open spec fn digits_value(d: Seq<char>) -> int
    decreases d.len(),
{
    if d.len() == 0 {
        0
    } else {
        digits_value(d.drop_last()) * 10 + (d.last() as int - '0' as int)
    }
}

/// Whether every character is a decimal digit.
pub open spec fn is_digits(d: Seq<char>) -> bool {
    forall|i: int| 0 <= i < d.len() ==> '0' <= #[trigger] d[i] <= '9'
}

/// Whether a character is white space to JavaScript's string-to-number
/// conversion.
pub open spec fn is_js_space(c: char) -> bool {
    c == ' ' || c == '\t' || c == '\n' || c == '\r' || c == '\u{b}' || c == '\u{c}' || c
        == '\u{a0}' || c == '\u{feff}' || c == '\u{1680}' || ('\u{2000}' <= c && c <= '\u{200a}')
        || c == '\u{2028}' || c == '\u{2029}' || c == '\u{202f}' || c == '\u{205f}' || c
        == '\u{3000}'
}

fn js_space(c: char) -> (r: bool)
    ensures
        r == is_js_space(c),
{
    c == ' ' || c == '\t' || c == '\n' || c == '\r' || c == '\u{b}' || c == '\u{c}' || c
        == '\u{a0}' || c == '\u{feff}' || c == '\u{1680}' || ('\u{2000}' <= c && c <= '\u{200a}')
        || c == '\u{2028}' || c == '\u{2029}' || c == '\u{202f}' || c == '\u{205f}' || c
        == '\u{3000}'
}

/// The string without its leading white space.
pub open spec fn trim_start(s: Seq<char>) -> Seq<char>
    decreases s.len(),
{
    if s.len() > 0 && is_js_space(s[0]) {
        trim_start(s.drop_first())
    } else {
        s
    }
}

/// The string without its trailing white space.
pub open spec fn trim_end(s: Seq<char>) -> Seq<char>
    decreases s.len(),
{
    if s.len() > 0 && is_js_space(s.last()) {
        trim_end(s.drop_last())
    } else {
        s
    }
}

/// The number that a string spells, if it spells one: white space around
/// it is ignored, and what is left is empty (zero) or a sign followed by
/// one to eighteen decimal digits.
pub open spec fn spec_to_number(s: Seq<char>) -> Option<Number> {
    let t = trim_end(trim_start(s));
    if t.len() == 0 {
        Some(Number::Int(0))
    } else {
        let neg = t[0] == '-';
        let d = if neg || t[0] == '+' {
            t.drop_first()
        } else {
            t
        };
        if 1 <= d.len() <= 18 && is_digits(d) {
            Some(
                Number::Int(
                    if neg {
                        -digits_value(d)
                    } else {
                        digits_value(d)
                    } as i64,
                ),
            )
        } else {
            None
        }
    }
}

proof fn lemma_pow10_bound(n: nat)
    requires
        n <= 18,
    ensures
        pow10(n) <= 1_000_000_000_000_000_000,
    decreases 18 - n,
{
    if n < 18 {
        lemma_pow10_bound(n + 1);
    } else {
        reveal_with_fuel(pow10, 19);
    }
}

/// The number that a string spells, if it spells one.
pub fn to_number(s: &str) -> (r: Option<Number>)
    ensures
        r == spec_to_number(s@),
{
    let len = s.unicode_len();
    let mut lo: usize = 0;
    assert(s@.subrange(0, len as int) =~= s@);
    while lo < len && js_space(s.get_char(lo))
        invariant
            0 <= lo <= len,
            len == s@.len(),
            trim_start(s@) == trim_start(s@.subrange(lo as int, len as int)),
        decreases len - lo,
    {
        assert(s@.subrange(lo as int, len as int).drop_first() =~= s@.subrange(lo + 1, len as int));
        lo = lo + 1;
    }
    let mut hi: usize = len;
    while hi > lo && js_space(s.get_char(hi - 1))
        invariant
            0 <= lo <= hi <= len,
            len == s@.len(),
            trim_end(s@.subrange(lo as int, len as int)) == trim_end(
                s@.subrange(lo as int, hi as int),
            ),
        decreases hi - lo,
    {
        assert(s@.subrange(lo as int, hi as int).drop_last() =~= s@.subrange(lo as int, hi - 1));
        hi = hi - 1;
    }
    let ghost t = s@.subrange(lo as int, hi as int);
    assert(t == trim_end(trim_start(s@)));
    if hi == lo {
        return Some(Number::Int(0));
    }
    let first = s.get_char(lo);
    let neg = first == '-';
    let start: usize = if neg || first == '+' {
        lo + 1
    } else {
        lo
    };
    let ghost d = if neg || first == '+' {
        t.drop_first()
    } else {
        t
    };
    assert(d =~= s@.subrange(start as int, hi as int));
    if hi - start < 1 || hi - start > 18 {
        return None;
    }
    let mut v: u64 = 0;
    let mut i: usize = start;
    while i < hi
        invariant
            start <= i <= hi <= len,
            len == s@.len(),
            t == trim_end(trim_start(s@)),
            t.len() > 0,
            neg == (t[0] == '-'),
            d == (if neg || t[0] == '+' { t.drop_first() } else { t }),
            hi - start <= 18,
            d =~= s@.subrange(start as int, hi as int),
            is_digits(d.subrange(0, i - start)),
            v == digits_value(d.subrange(0, i - start)),
            v < pow10((i - start) as nat),
        decreases hi - i,
    {
        let c = s.get_char(i);
        if c < '0' || c > '9' {
            assert(d[i - start] == c);
            assert(!is_digits(d));
            return None;
        }
        let ghost prev = d.subrange(0, i - start);
        let ghost next = d.subrange(0, i + 1 - start);
        assert(next.drop_last() =~= prev);
        assert(next.last() == c);
        assert(is_digits(next)) by {
            assert forall|k: int| 0 <= k < next.len() implies '0' <= #[trigger] next[k] <= '9' by {
                if k < prev.len() {
                    assert(next[k] == prev[k]);
                }
            }
        }
        proof {
            lemma_pow10_bound((i + 1 - start) as nat);
        }
        let digit: u64 = (c as u64) - ('0' as u64);
        assert(v * 10 + digit < pow10((i + 1 - start) as nat)) by (nonlinear_arith)
            requires
                v < pow10((i - start) as nat),
                pow10((i + 1 - start) as nat) == 10 * pow10((i - start) as nat),
                digit <= 9,
        ;
        v = v * 10 + digit;
        i = i + 1;
    }
    assert(d.subrange(0, hi - start) =~= d);
    proof {
        lemma_pow10_bound((hi - start) as nat);
    }
    let n: i64 = v as i64;
    if neg {
        Some(Number::Int(-n))
    } else {
        Some(Number::Int(n))
    }
}

/// Strict (`===`) equality: values of one type that are equal.
pub open spec fn spec_strict_eq(a: Json, b: Json) -> bool {
    match (a, b) {
        (Json::Null, Json::Null) => true,
        (Json::Bool(x), Json::Bool(y)) => x == y,
        (Json::Number(x), Json::Number(y)) => spec_num_eq(x, y),
        (Json::String(x), Json::String(y)) => x@ == y@,
        _ => false,
    }
}

/// The number that a boolean converts to.
pub open spec fn bool_number(b: bool) -> Number {
    Number::Int(
        if b {
            1
        } else {
            0
        },
    )
}

/// Whether a number equals the number that a string spells.
pub open spec fn spec_num_str_eq(n: Number, s: Seq<char>) -> bool {
    match spec_to_number(s) {
        Some(m) => spec_num_eq(n, m),
        None => false,
    }
}

/// Loose (`==`) equality: strict equality within a type; across null,
/// booleans, numbers and strings, equality after conversion to a number,
/// where null equals only null.
pub open spec fn spec_abstract_eq(a: Json, b: Json) -> bool {
    match (a, b) {
        (Json::Null, Json::Null) => true,
        (Json::Bool(x), Json::Bool(y)) => x == y,
        (Json::Number(x), Json::Number(y)) => spec_num_eq(x, y),
        (Json::String(x), Json::String(y)) => x@ == y@,
        (Json::Number(n), Json::String(s)) => spec_num_str_eq(n, s@),
        (Json::String(s), Json::Number(n)) => spec_num_str_eq(n, s@),
        (Json::Bool(x), Json::Number(n)) => spec_num_eq(bool_number(x), n),
        (Json::Number(n), Json::Bool(y)) => spec_num_eq(n, bool_number(y)),
        (Json::Bool(x), Json::String(s)) => spec_num_str_eq(bool_number(x), s@),
        (Json::String(s), Json::Bool(y)) => spec_num_str_eq(bool_number(y), s@),
        _ => false,
    }
}

fn num_str_eq(n: Number, s: &String) -> (r: bool)
    ensures
        r == spec_num_str_eq(n, s@),
{
    match to_number(s.as_str()) {
        Some(m) => num_eq(n, m),
        None => false,
    }
}

fn bool_to_number(b: bool) -> (r: Number)
    ensures
        r == bool_number(b),
{
    if b {
        Number::Int(1)
    } else {
        Number::Int(0)
    }
}

/// Strict equality (`===`).
pub fn strict_eq(first: &Json, second: &Json) -> (r: bool)
    ensures
        r == spec_strict_eq(*first, *second),
{
    match (first, second) {
        (Json::Null, Json::Null) => true,
        (Json::Bool(x), Json::Bool(y)) => *x == *y,
        (Json::Number(x), Json::Number(y)) => num_eq(*x, *y),
        (Json::String(x), Json::String(y)) => *x == *y,
        _ => false,
    }
}

/// Strict inequality (`!==`).
pub fn strict_ne(first: &Json, second: &Json) -> (r: bool)
    ensures
        r == !spec_strict_eq(*first, *second),
{
    !strict_eq(first, second)
}

/// Loose equality (`==`).
pub fn abstract_eq(first: &Json, second: &Json) -> (r: bool)
    ensures
        r == spec_abstract_eq(*first, *second),
{
    match (first, second) {
        (Json::Null, Json::Null) => true,
        (Json::Bool(x), Json::Bool(y)) => *x == *y,
        (Json::Number(x), Json::Number(y)) => num_eq(*x, *y),
        (Json::String(x), Json::String(y)) => *x == *y,
        (Json::Number(n), Json::String(s)) => num_str_eq(*n, s),
        (Json::String(s), Json::Number(n)) => num_str_eq(*n, s),
        (Json::Bool(x), Json::Number(n)) => num_eq(bool_to_number(*x), *n),
        (Json::Number(n), Json::Bool(y)) => num_eq(*n, bool_to_number(*y)),
        (Json::Bool(x), Json::String(s)) => num_str_eq(bool_to_number(*x), s),
        (Json::String(s), Json::Bool(y)) => num_str_eq(bool_to_number(*y), s),
        _ => false,
    }
}

/// Loose inequality (`!=`).
pub fn abstract_ne(first: &Json, second: &Json) -> (r: bool)
    ensures
        r == !spec_abstract_eq(*first, *second),
{
    !abstract_eq(first, second)
}

} // verus!
