use vstd::prelude::*;

verus! {

/// Bits of an IEEE-754 double other than the sign.
pub const MAGNITUDE_MASK: u64 = 0x7fff_ffff_ffff_ffff;

/// Bits of an IEEE-754 double that hold the exponent.
pub const EXPONENT_MASK: u64 = 0x7ff0_0000_0000_0000;

/// Bits of an IEEE-754 double that hold the fraction.
pub const FRACTION_MASK: u64 = 0x000f_ffff_ffff_ffff;

/// A JSON number.
///
/// A number whose value is an integer in the range of `i64` is held as
/// `Int`; any other number is held as `Float`, by the bit pattern of the
/// IEEE-754 double that stands for it.
#[derive(Clone, Copy, Debug, PartialEq, Eq, Structural)]
pub enum Number {
    Int(i64),
    Float(u64),
}

/// Whether the double with these bits is a zero (of either sign).
pub open spec fn float_is_zero(bits: u64) -> bool {
    bits & MAGNITUDE_MASK == 0
}

/// Whether the double with these bits is not a number.
pub open spec fn float_is_nan(bits: u64) -> bool {
    bits & EXPONENT_MASK == EXPONENT_MASK && bits & FRACTION_MASK != 0
}

impl Number {
    /// Whether the number equals zero.
    pub open spec fn spec_is_zero(self) -> bool {
        match self {
            Number::Int(i) => i == 0,
            Number::Float(bits) => float_is_zero(bits),
        }
    }

    /// Whether the number equals zero.
    pub fn is_zero(&self) -> (r: bool)
        ensures
            r == self.spec_is_zero(),
    {
        match self {
            Number::Int(i) => *i == 0,
            Number::Float(bits) => *bits & MAGNITUDE_MASK == 0,
        }
    }
}

/// A JSON value. An object holds its entries in order, one per key.
#[derive(Debug, PartialEq)]
pub enum Json {
    Null,
    Bool(bool),
    Number(Number),
    String(String),
    Array(Vec<Json>),
    Object(Vec<(String, Json)>),
}

/// The result of evaluating a term: a value computed anew, or a value of
/// the input passed through unchanged.
#[derive(Debug)]
pub enum Evaluated<'a> {
    New(Json),
    Raw(&'a Json),
}

impl<'a> Evaluated<'a> {
    /// The value that was evaluated to.
    pub open spec fn value(self) -> Json {
        match self {
            Evaluated::New(v) => v,
            Evaluated::Raw(v) => *v,
        }
    }
}

impl<'a> Evaluated<'a> {
    /// The value that was evaluated to.
    pub fn as_json(&self) -> (r: &Json)
        ensures
            *r == self.value(),
    {
        match self {
            Evaluated::New(v) => v,
            Evaluated::Raw(v) => v,
        }
    }
}

/// Whether two values are equal as JSON: of one kind, with equal contents.
pub open spec fn same(a: Json, b: Json) -> bool
    decreases a,
{
    match (a, b) {
        (Json::Null, Json::Null) => true,
        (Json::Bool(x), Json::Bool(y)) => x == y,
        (Json::Number(x), Json::Number(y)) => x == y,
        (Json::String(x), Json::String(y)) => x@ == y@,
        (Json::Array(x), Json::Array(y)) => x@.len() == y@.len() && forall|i: int|
            0 <= i < x@.len() ==> same(#[trigger] x@[i], y@[i]),
        (Json::Object(x), Json::Object(y)) => x@.len() == y@.len() && forall|i: int|
            0 <= i < x@.len() ==> (#[trigger] x@[i]).0@ == y@[i].0@ && same(x@[i].1, y@[i].1),
        _ => false,
    }
}

/// The elements of an array and the values of an object are below it in
/// the order of termination.
pub proof fn lemma_element_decreases(v: Json, i: int)
    ensures
        match v {
            Json::Array(a) => 0 <= i < a@.len() ==> decreases_to!(v => a@[i]),
            Json::Object(e) => 0 <= i < e@.len() ==> decreases_to!(v => e@[i].1),
            _ => true,
        },
{
    if let Json::Array(a) = v {
        if 0 <= i < a@.len() {
            assert(decreases_to!(v => a));
            assert(decreases_to!(a => a@));
            assert(decreases_to!(a@ => a@[i]));
        }
    }
    if let Json::Object(e) = v {
        if 0 <= i < e@.len() {
            assert(decreases_to!(v => e));
            assert(decreases_to!(e => e@));
            assert(decreases_to!(e@ => e@[i]));
            assert(decreases_to!(e@[i] => e@[i].1));
        }
    }
}

impl Json {
    /// A copy of the value.
    pub fn deep_copy(&self) -> (r: Json)
        ensures
            same(r, *self),
        decreases *self,
    {
        match self {
            Json::Null => Json::Null,
            Json::Bool(b) => Json::Bool(*b),
            Json::Number(n) => Json::Number(*n),
            Json::String(s) => Json::String(s.clone()),
            Json::Array(items) => {
                let mut out: Vec<Json> = Vec::new();
                let mut i: usize = 0;
                while i < items.len()
                    invariant
                        0 <= i <= items@.len(),
                        *self == Json::Array(*items),
                        out@.len() == i,
                        forall|j: int| 0 <= j < i ==> same(#[trigger] out@[j], items@[j]),
                    decreases items@.len() - i,
                {
                    proof {
                        lemma_element_decreases(*self, i as int);
                    }
                    out.push(items[i].deep_copy());
                    i = i + 1;
                }
                Json::Array(out)
            },
            Json::Object(entries) => {
                let mut out: Vec<(String, Json)> = Vec::new();
                let mut i: usize = 0;
                while i < entries.len()
                    invariant
                        0 <= i <= entries@.len(),
                        *self == Json::Object(*entries),
                        out@.len() == i,
                        forall|j: int|
                            0 <= j < i ==> (#[trigger] out@[j]).0@ == entries@[j].0@ && same(
                                out@[j].1,
                                entries@[j].1,
                            ),
                    decreases entries@.len() - i,
                {
                    proof {
                        lemma_element_decreases(*self, i as int);
                    }
                    out.push((entries[i].0.clone(), entries[i].1.deep_copy()));
                    i = i + 1;
                }
                Json::Object(out)
            },
        }
    }
}

} // verus!
