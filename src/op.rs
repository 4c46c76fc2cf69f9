//! Operators: the two registries, recognition of operator calls, and the
//! evaluation of terms, with the short-circuiting `if`, `or` and `and`.

use crate::error::{Error, ErrorView};
use crate::js_op::{abstract_eq, abstract_ne, spec_abstract_eq, spec_strict_eq, strict_eq, strict_ne};
use crate::value::{same, Evaluated, Json};
use vstd::prelude::*;

verus! {

/// Whether a value counts as true when a boolean is asked of it.
pub open spec fn spec_truthy(v: Json) -> bool {
    match v {
        Json::Null => false,
        Json::Bool(b) => b,
        Json::Number(n) => !n.spec_is_zero(),
        Json::String(s) => s@.len() != 0,
        Json::Array(a) => a@.len() != 0,
        Json::Object(_) => true,
    }
}

/// Return whether a value is "truthy".
///
/// Null, false, zero, the empty string and the empty array are falsey;
/// every other value is truthy, every object included.
pub fn truthy(val: &Json) -> (r: bool)
    ensures
        r == spec_truthy(*val),
{
    match val {
        Json::Null => false,
        Json::Bool(v) => *v,
        Json::Number(n) => !n.is_zero(),
        Json::String(s) => !s.as_str().is_empty(),
        Json::Array(a) => a.len() != 0,
        Json::Object(_) => true,
    }
}

/// Whether an evaluated value is "truthy".
pub fn truthy_from_evaluated(evaluated: &Evaluated) -> (r: bool)
    ensures
        r == spec_truthy(evaluated.value()),
{
    match evaluated {
        Evaluated::New(v) => truthy(v),
        Evaluated::Raw(v) => truthy(v),
    }
}

/// Upper bound (exclusive) on the argument count of the lazy operators.
pub const MAX_ARGS: usize = 4294967295;

/// The comparison that an eager operator computes.
#[derive(Clone, Copy, Debug, PartialEq, Eq, Structural)]
pub enum Comparison {
    AbstractEq,
    AbstractNe,
    StrictEq,
    StrictNe,
}

/// The algorithm of a lazy operator.
#[derive(Clone, Copy, Debug, PartialEq, Eq, Structural)]
pub enum Control {
    If,
    Or,
    And,
}

/// The comparison registered under a symbol, if any.
pub open spec fn spec_comparison(key: Seq<char>) -> Option<Comparison> {
    if key == seq!['=', '='] {
        Some(Comparison::AbstractEq)
    } else if key == seq!['!', '='] {
        Some(Comparison::AbstractNe)
    } else if key == seq!['=', '=', '='] {
        Some(Comparison::StrictEq)
    } else if key == seq!['!', '=', '='] {
        Some(Comparison::StrictNe)
    } else {
        None
    }
}

/// The control-flow operator registered under a symbol, if any.
pub open spec fn spec_control(key: Seq<char>) -> Option<Control> {
    if key == seq!['i', 'f'] {
        Some(Control::If)
    } else if key == seq!['o', 'r'] {
        Some(Control::Or)
    } else if key == seq!['a', 'n', 'd'] {
        Some(Control::And)
    } else {
        None
    }
}

/// The least argument count that a control-flow operator accepts.
pub open spec fn control_min_args(c: Control) -> usize {
    match c {
        Control::If => 3,
        _ => 1,
    }
}

/// What a comparison yields on two values.
pub open spec fn spec_compare(c: Comparison, a: Json, b: Json) -> bool {
    match c {
        Comparison::AbstractEq => spec_abstract_eq(a, b),
        Comparison::AbstractNe => !spec_abstract_eq(a, b),
        Comparison::StrictEq => spec_strict_eq(a, b),
        Comparison::StrictNe => !spec_strict_eq(a, b),
    }
}

/// The key and value of an object with exactly one entry.
pub open spec fn single_entry(v: Json) -> Option<(Seq<char>, Json)> {
    match v {
        Json::Object(e) => if e@.len() == 1 {
            Some((e@[0].0@, e@[0].1))
        } else {
            None
        },
        _ => None,
    }
}

/// The argument array of a single-entry object whose value is an array;
/// empty for any other value.
pub open spec fn call_args(v: Json) -> Seq<Json> {
    match v {
        Json::Object(e) => if e@.len() == 1 {
            match e@[0].1 {
                Json::Array(a) => a@,
                _ => seq![],
            }
        } else {
            seq![]
        },
        _ => seq![],
    }
}

/// The reason given when an operator's value is not an array.
pub open spec fn not_array_reason() -> Seq<char> {
    "Values for operator keys must be arrays"@
}

/// The error of a call to a registered operator whose value is `val`, given
/// the operator's accepted argument counts `start..end`.
pub open spec fn header_error(key: Seq<char>, val: Json, start: usize, end: usize) -> Option<
    ErrorView,
> {
    match val {
        Json::Array(a) => if start <= a@.len() < end {
            None
        } else {
            Some(ErrorView::WrongArgumentCount { start, end, actual: a@.len() as usize })
        },
        _ => Some(ErrorView::InvalidOperation { key, reason: not_array_reason() }),
    }
}

/// The arguments of a call are below the call in the order of termination.
pub proof fn lemma_args_decrease(v: Json)
    ensures
        call_args(v).len() > 0 ==> decreases_to!(v => call_args(v)),
{
    if let Json::Object(e) = v {
        if e@.len() == 1 {
            if let Json::Array(a) = e@[0].1 {
                assert(decreases_to!(v => e));
                assert(decreases_to!(e => e@));
                assert(decreases_to!(e@ => e@[0]));
                assert(decreases_to!(e@[0] => e@[0].1));
                assert(decreases_to!(e@[0].1 => a));
                assert(decreases_to!(a => a@));
            }
        }
    }
}

/// The error that recognizing `v` as a term raises, if any: that of the
/// call itself, then, for an eager operator, that of its arguments in order.
pub open spec fn parse_error(v: Json) -> Option<ErrorView>
    decreases v,
{
    match single_entry(v) {
        None => None,
        Some((key, val)) => match spec_comparison(key) {
            Some(_) => match header_error(key, val, 2, 3) {
                Some(e) => Some(e),
                None => {
                    let a = call_args(v);
                    proof {
                        lemma_args_decrease(v);
                    }
                    match parse_error(a[0]) {
                        Some(e) => Some(e),
                        None => parse_error(a[1]),
                    }
                },
            },
            None => match spec_control(key) {
                Some(c) => header_error(key, val, control_min_args(c), MAX_ARGS),
                None => None,
            },
        },
    }
}

/// The value a term evaluates to against the data document `data`, or the
/// error it raises.
pub open spec fn eval(v: Json, data: Json) -> Result<Json, ErrorView>
    decreases v, 1int, 0int,
{
    match parse_error(v) {
        Some(e) => Err(e),
        None => match single_entry(v) {
            None => Ok(v),
            Some((key, _)) => {
                let a = call_args(v);
                proof {
                    lemma_args_decrease(v);
                }
                match spec_comparison(key) {
                    Some(c) => match eval(a[0], data) {
                        Err(e) => Err(e),
                        Ok(x) => match eval(a[1], data) {
                            Err(e) => Err(e),
                            Ok(y) => Ok(Json::Bool(spec_compare(c, x, y))),
                        },
                    },
                    None => match spec_control(key) {
                        Some(c) => eval_control(c, a, data),
                        None => Ok(v),
                    },
                }
            },
        },
    }
}

/// What a control-flow operator yields on its unevaluated arguments.
pub open spec fn eval_control(c: Control, args: Seq<Json>, data: Json) -> Result<Json, ErrorView>
    decreases args, 1int, 0int,
{
    match c {
        Control::If => eval_if(args, data, 0, Json::Null, false),
        Control::Or => eval_or(args, data, 0),
        Control::And => eval_and(args, data, 0),
    }
}

/// The message of the error that `or` raises with no arguments.
pub open spec fn or_empty_message() -> Seq<char> {
    "Or operation had no values to operate on"@
}

/// The message of the error that `and` raises with no arguments.
pub open spec fn and_empty_message() -> Seq<char> {
    "And operation had no values to operate on"@
}

/// `or` from argument `i` on: the first truthy value, else the last value.
pub open spec fn eval_or(args: Seq<Json>, data: Json, i: int) -> Result<Json, ErrorView>
    decreases args, 0int, args.len() - i,
{
    if i < 0 || i >= args.len() {
        Err(ErrorView::UnexpectedError(or_empty_message()))
    } else {
        match eval(args[i], data) {
            Err(e) => Err(e),
            Ok(x) => if spec_truthy(x) || i + 1 == args.len() {
                Ok(x)
            } else {
                eval_or(args, data, i + 1)
            },
        }
    }
}

/// `and` from argument `i` on: the first falsey value, else the last value.
pub open spec fn eval_and(args: Seq<Json>, data: Json, i: int) -> Result<Json, ErrorView>
    decreases args, 0int, args.len() - i,
{
    if i < 0 || i >= args.len() {
        Err(ErrorView::UnexpectedError(and_empty_message()))
    } else {
        match eval(args[i], data) {
            Err(e) => Err(e),
            Ok(x) => if !spec_truthy(x) || i + 1 == args.len() {
                Ok(x)
            } else {
                eval_and(args, data, i + 1)
            },
        }
    }
}

/// `if` from argument `i` on, where `last` is the value last evaluated and
/// `was_truthy` says whether the condition just evaluated was truthy. An
/// argument at an even index is a condition (or the final else); one at an
/// odd index is returned when the condition before it was truthy.
pub open spec fn eval_if(args: Seq<Json>, data: Json, i: int, last: Json, was_truthy: bool) -> Result<
    Json,
    ErrorView,
>
    decreases args, 0int, args.len() - i,
{
    if i < 0 || i >= args.len() {
        Ok(last)
    } else if i % 2 == 0 {
        match eval(args[i], data) {
            Err(e) => Err(e),
            Ok(x) => eval_if(args, data, i + 1, x, spec_truthy(x)),
        }
    } else if was_truthy {
        eval(args[i], data)
    } else {
        eval_if(args, data, i + 1, last, was_truthy)
    }
}

/// A registered eager operator: its arguments are evaluated before it runs.
#[derive(Debug)]
pub struct Operator {
    symbol: &'static str,
    operator: Comparison,
    num_params: Option<std::ops::Range<usize>>,
}

/// A registered lazy operator: it receives its arguments unevaluated.
#[derive(Debug)]
pub struct LazyOperator {
    symbol: &'static str,
    operator: Control,
    num_params: Option<std::ops::Range<usize>>,
}

/// What a length check on an optional range of argument counts yields.
pub open spec fn spec_len_check(num_params: Option<std::ops::Range<usize>>, len: nat) -> Result<
    (),
    std::ops::Range<usize>,
> {
    match num_params {
        None => Ok(()),
        Some(range) => if range.start <= len < range.end {
            Ok(())
        } else {
            Err(range)
        },
    }
}

fn check_len(num_params: &Option<std::ops::Range<usize>>, len: usize) -> (r: Result<
    (),
    std::ops::Range<usize>,
>)
    ensures
        r == spec_len_check(*num_params, len as nat),
{
    match num_params {
        None => Ok(()),
        Some(range) => if range.start <= len && len < range.end {
            Ok(())
        } else {
            Err(std::ops::Range { start: range.start, end: range.end })
        },
    }
}

impl Operator {
    /// The symbol the operator is registered under.
    pub closed spec fn spec_symbol(&self) -> Seq<char> {
        self.symbol@
    }

    /// The comparison the operator computes.
    pub closed spec fn spec_operator(&self) -> Comparison {
        self.operator
    }

    /// The argument counts the operator accepts, if it restricts them.
    pub closed spec fn spec_num_params(&self) -> Option<std::ops::Range<usize>> {
        self.num_params
    }

    /// The symbol the operator is registered under.
    pub fn symbol(&self) -> (r: &'static str)
        ensures
            r@ == self.spec_symbol(),
    {
        self.symbol
    }

    /// Run the operator on its evaluated arguments.
    pub fn execute(&self, items: &Vec<&Json>) -> (r: Result<Json, Error>)
        requires
            items@.len() >= 2,
        ensures
            r matches Ok(Json::Bool(b)) && b == spec_compare(
                self.spec_operator(),
                *items@[0],
                *items@[1],
            ),
    {
        let b = match self.operator {
            Comparison::AbstractEq => abstract_eq(items[0], items[1]),
            Comparison::AbstractNe => abstract_ne(items[0], items[1]),
            Comparison::StrictEq => strict_eq(items[0], items[1]),
            Comparison::StrictNe => strict_ne(items[0], items[1]),
        };
        Ok(Json::Bool(b))
    }

    /// Check an argument list's length against the operator's range, which
    /// comes back as the error when the length is outside it.
    pub fn args_are_valid_len<T>(&self, args: &Vec<T>) -> (r: Result<(), std::ops::Range<usize>>)
        ensures
            r == spec_len_check(self.spec_num_params(), args@.len()),
    {
        check_len(&self.num_params, args.len())
    }
}

impl LazyOperator {
    /// The symbol the operator is registered under.
    pub closed spec fn spec_symbol(&self) -> Seq<char> {
        self.symbol@
    }

    /// The algorithm of the operator.
    pub closed spec fn spec_operator(&self) -> Control {
        self.operator
    }

    /// The argument counts the operator accepts, if it restricts them.
    pub closed spec fn spec_num_params(&self) -> Option<std::ops::Range<usize>> {
        self.num_params
    }

    /// The symbol the operator is registered under.
    pub fn symbol(&self) -> (r: &'static str)
        ensures
            r@ == self.spec_symbol(),
    {
        self.symbol
    }

    /// Check an argument list's length against the operator's range, which
    /// comes back as the error when the length is outside it.
    pub fn args_are_valid_len<T>(&self, args: &Vec<T>) -> (r: Result<(), std::ops::Range<usize>>)
        ensures
            r == spec_len_check(self.spec_num_params(), args@.len()),
    {
        check_len(&self.num_params, args.len())
    }
}

/// The eager operator registered under a symbol.
pub open spec fn is_eager_entry(key: Seq<char>, op: Operator) -> bool {
    &&& spec_comparison(key) == Some(op.spec_operator())
    &&& op.spec_symbol() == key
    &&& op.spec_num_params() == Some(std::ops::Range { start: 2usize, end: 3usize })
}

/// The lazy operator registered under a symbol.
pub open spec fn is_lazy_entry(key: Seq<char>, op: LazyOperator) -> bool {
    &&& spec_control(key) == Some(op.spec_operator())
    &&& op.spec_symbol() == key
    &&& op.spec_num_params() == Some(
        std::ops::Range { start: control_min_args(op.spec_operator()), end: MAX_ARGS },
    )
}

fn eager(symbol: &'static str, operator: Comparison) -> (r: Operator)
    ensures
        r.spec_symbol() == symbol@,
        r.spec_operator() == operator,
        r.spec_num_params() == Some(std::ops::Range { start: 2usize, end: 3usize }),
{
    Operator { symbol, operator, num_params: Some(std::ops::Range { start: 2, end: 3 }) }
}

fn lazy(symbol: &'static str, operator: Control, min: usize) -> (r: LazyOperator)
    ensures
        r.spec_symbol() == symbol@,
        r.spec_operator() == operator,
        r.spec_num_params() == Some(std::ops::Range { start: min, end: MAX_ARGS }),
{
    LazyOperator { symbol, operator, num_params: Some(std::ops::Range { start: min, end: MAX_ARGS }) }
}

proof fn lemma_symbols()
    ensures
        "=="@ =~= seq!['=', '='],
        "!="@ =~= seq!['!', '='],
        "==="@ =~= seq!['=', '=', '='],
        "!=="@ =~= seq!['!', '=', '='],
        "if"@ =~= seq!['i', 'f'],
        "or"@ =~= seq!['o', 'r'],
        "and"@ =~= seq!['a', 'n', 'd'],
{
    reveal_strlit("==");
    reveal_strlit("!=");
    reveal_strlit("===");
    reveal_strlit("!==");
    reveal_strlit("if");
    reveal_strlit("or");
    reveal_strlit("and");
}

/// The registry of eager operators, as (symbol, operator) pairs.
pub fn operator_map() -> (r: Vec<(&'static str, Operator)>)
    ensures
        r@.len() == 4,
        forall|i: int| 0 <= i < r@.len() ==> is_eager_entry((#[trigger] r@[i]).0@, r@[i].1),
{
    proof {
        lemma_symbols();
    }
    let mut r: Vec<(&'static str, Operator)> = Vec::new();
    r.push(("==", eager("==", Comparison::AbstractEq)));
    r.push(("!=", eager("!=", Comparison::AbstractNe)));
    r.push(("===", eager("===", Comparison::StrictEq)));
    r.push(("!==", eager("!==", Comparison::StrictNe)));
    assert(seq!['=', '=', '='].len() != seq!['=', '='].len());
    assert(seq!['!', '=', '='].len() != seq!['!', '='].len());
    assert(seq!['!', '='] != seq!['=', '=']);
    assert(seq!['!', '=', '='] != seq!['=', '=', '=']);
    r
}

/// The registry of lazy operators, as (symbol, operator) pairs.
pub fn lazy_operator_map() -> (r: Vec<(&'static str, LazyOperator)>)
    ensures
        r@.len() == 3,
        forall|i: int| 0 <= i < r@.len() ==> is_lazy_entry((#[trigger] r@[i]).0@, r@[i].1),
{
    proof {
        lemma_symbols();
    }
    let mut r: Vec<(&'static str, LazyOperator)> = Vec::new();
    r.push(("if", lazy("if", Control::If, 3)));
    r.push(("or", lazy("or", Control::Or, 1)));
    r.push(("and", lazy("and", Control::And, 1)));
    r
}

/// The eager operator registered under `key`, if any.
pub fn get_operator(key: &str) -> (r: Option<Operator>)
    ensures
        r is Some <==> spec_comparison(key@) is Some,
        r matches Some(op) ==> is_eager_entry(key@, op),
{
    proof {
        lemma_symbols();
    }
    let k = key.to_owned();
    if k == "==".to_owned() {
        Some(eager("==", Comparison::AbstractEq))
    } else if k == "!=".to_owned() {
        Some(eager("!=", Comparison::AbstractNe))
    } else if k == "===".to_owned() {
        Some(eager("===", Comparison::StrictEq))
    } else if k == "!==".to_owned() {
        Some(eager("!==", Comparison::StrictNe))
    } else {
        None
    }
}

/// The lazy operator registered under `key`, if any.
pub fn get_lazy_operator(key: &str) -> (r: Option<LazyOperator>)
    ensures
        r is Some <==> spec_control(key@) is Some,
        r matches Some(op) ==> is_lazy_entry(key@, op),
{
    proof {
        lemma_symbols();
    }
    let k = key.to_owned();
    if k == "if".to_owned() {
        Some(lazy("if", Control::If, 3))
    } else if k == "or".to_owned() {
        Some(lazy("or", Control::Or, 1))
    } else if k == "and".to_owned() {
        Some(lazy("and", Control::And, 1))
    } else {
        None
    }
}

/// Whether a value is a call of a registered eager operator: an object
/// with one entry, whose key is an eager operator's symbol.
pub open spec fn is_eager_call(v: Json) -> bool {
    single_entry(v) matches Some((k, _)) && spec_comparison(k) is Some
}

/// Whether a value is a call of a registered lazy operator.
pub open spec fn is_lazy_call(v: Json) -> bool {
    single_entry(v) matches Some((k, _)) && spec_control(k) is Some
}

/// The key of a single-entry object.
pub open spec fn call_key(v: Json) -> Seq<char> {
    single_entry(v).unwrap().0
}

/// What an evaluation returns, as plain values.
pub open spec fn outcome<'a>(r: Result<Evaluated<'a>, Error>) -> Result<Json, ErrorView> {
    match r {
        Ok(e) => Ok(e.value()),
        Err(e) => Err(e@),
    }
}

/// A term: a recognized call of an eager or a lazy operator, or a literal.
#[derive(Debug)]
pub enum Parsed<'a> {
    Operation(Operation<'a>),
    LazyOperation(LazyOperation<'a>),
    Raw(&'a Json),
}

/// A recognized call of an eager operator, with its arguments parsed.
#[derive(Debug)]
pub struct Operation<'a> {
    operator: Operator,
    arguments: Vec<Parsed<'a>>,
    value: &'a Json,
}

/// A recognized call of a lazy operator, with its arguments as they stand
/// in the input.
#[derive(Debug)]
pub struct LazyOperation<'a> {
    operator: LazyOperator,
    arguments: &'a Vec<Json>,
    value: &'a Json,
}

impl<'a> Parsed<'a> {
    /// The value the term was recognized in.
    pub closed spec fn source(self) -> Json {
        match self {
            Parsed::Operation(o) => *o.value,
            Parsed::LazyOperation(l) => *l.value,
            Parsed::Raw(v) => *v,
        }
    }

    /// The term is what recognizing its source yields.
    pub closed spec fn wf(self) -> bool
        decreases self,
    {
        match self {
            Parsed::Operation(o) => {
                &&& is_eager_call(*o.value)
                &&& parse_error(*o.value) is None
                &&& is_eager_entry(call_key(*o.value), o.operator)
                &&& o.arguments@.len() == 2
                &&& o.arguments@[0].wf()
                &&& o.arguments@[1].wf()
                &&& o.arguments@[0].source() == call_args(*o.value)[0]
                &&& o.arguments@[1].source() == call_args(*o.value)[1]
            },
            Parsed::LazyOperation(l) => {
                &&& is_lazy_call(*l.value)
                &&& parse_error(*l.value) is None
                &&& is_lazy_entry(call_key(*l.value), l.operator)
                &&& l.arguments@ == call_args(*l.value)
            },
            Parsed::Raw(v) => !is_eager_call(*v) && !is_lazy_call(*v),
        }
    }
}

impl<'a> Parsed<'a> {
    /// Recognize a value as a term: a call of a registered operator, or
    /// else a literal.
    pub fn from_value(value: &'a Json) -> (r: Result<Parsed<'a>, Error>)
        ensures
            match r {
                Ok(p) => p.wf() && p.source() == *value && parse_error(*value) is None,
                Err(e) => parse_error(*value) == Some(e@),
            },
        decreases *value, 2int,
    {
        match Operation::from_value(value) {
            Err(e) => return Err(e),
            Ok(Some(op)) => return Ok(Parsed::Operation(op)),
            Ok(None) => {},
        }
        match LazyOperation::from_value(value) {
            Err(e) => Err(e),
            Ok(Some(op)) => Ok(Parsed::LazyOperation(op)),
            Ok(None) => Ok(Parsed::Raw(value)),
        }
    }

    /// Recognize each value of a list as a term, stopping at the first
    /// error.
    pub fn from_values(values: &'a Vec<Json>) -> (r: Result<Vec<Parsed<'a>>, Error>)
        ensures
            match r {
                Ok(ps) => {
                    &&& ps@.len() == values@.len()
                    &&& forall|i: int|
                        0 <= i < values@.len() ==> {
                            &&& (#[trigger] ps@[i]).wf()
                            &&& ps@[i].source() == values@[i]
                            &&& parse_error(values@[i]) is None
                        }
                },
                Err(e) => exists|k: int|
                    0 <= k < values@.len() && (forall|j: int|
                        0 <= j < k ==> parse_error(#[trigger] values@[j]) is None) && parse_error(
                        values@[k],
                    ) == Some(e@),
            },
        decreases values@, 0int,
    {
        let mut ps: Vec<Parsed<'a>> = Vec::new();
        let mut i: usize = 0;
        while i < values.len()
            invariant
                0 <= i <= values@.len(),
                ps@.len() == i,
                forall|j: int|
                    0 <= j < i ==> {
                        &&& (#[trigger] ps@[j]).wf()
                        &&& ps@[j].source() == values@[j]
                        &&& parse_error(values@[j]) is None
                    },
            decreases values@.len() - i,
        {
            proof {
                assert(decreases_to!(values@ => values@[i as int]));
            }
            match Parsed::from_value(&values[i]) {
                Ok(p) => ps.push(p),
                Err(e) => {
                    assert(forall|j: int| 0 <= j < i ==> parse_error(#[trigger] values@[j]) is None) by {
                        assert forall|j: int| 0 <= j < i implies parse_error(#[trigger] values@[j]) is None by {
                            assert(ps@[j].wf());
                        }
                    }
                    return Err(e);
                },
            }
            i = i + 1;
        }
        Ok(ps)
    }
}

impl<'a> Operation<'a> {
    /// The value the call was recognized in.
    pub closed spec fn source(self) -> Json {
        *self.value
    }

    /// The call is what recognizing its source yields.
    pub open spec fn wf(self) -> bool {
        Parsed::Operation(self).wf()
    }

    /// Recognize a value as a call of an eager operator.
    ///
    /// A value that is not an object with one entry, or whose key is not an
    /// eager operator's symbol, is no such call. A call whose value is not
    /// an array, whose argument count the operator does not accept, or one
    /// of whose arguments does not parse, is an error.
    pub fn from_value(value: &'a Json) -> (r: Result<Option<Operation<'a>>, Error>)
        ensures
            match r {
                Err(e) => is_eager_call(*value) && parse_error(*value) == Some(e@),
                Ok(None) => !is_eager_call(*value),
                Ok(Some(op)) => {
                    &&& is_eager_call(*value)
                    &&& parse_error(*value) is None
                    &&& op.wf()
                    &&& op.source() == *value
                },
            },
        decreases *value, 1int,
    {
        let obj = match value {
            Json::Object(obj) => obj,
            _ => return Ok(None),
        };
        if obj.len() != 1 {
            return Ok(None);
        }
        let key: &String = &obj[0].0;
        let val: &'a Json = &obj[0].1;
        let operator = match get_operator(key.as_str()) {
            Some(op) => op,
            None => return Ok(None),
        };
        let args: &'a Vec<Json> = match val {
            Json::Array(args) => args,
            _ => {
                return Err(
                    Error::InvalidOperation {
                        key: key.clone(),
                        reason: "Values for operator keys must be arrays".to_owned(),
                    },
                )
            },
        };
        match operator.args_are_valid_len(args) {
            Ok(()) => {},
            Err(exp_range) => {
                return Err(Error::WrongArgumentCount { expected: exp_range, actual: args.len() });
            },
        }
        assert(call_args(*value) == args@);
        proof {
            lemma_args_decrease(*value);
        }
        let arguments = match Parsed::from_values(args) {
            Ok(a) => a,
            Err(e) => return Err(e),
        };
        assert(arguments@[0].wf());
        assert(arguments@[1].wf());
        Ok(Some(Operation { operator, arguments, value }))
    }
}

impl<'a> LazyOperation<'a> {
    /// The value the call was recognized in.
    pub closed spec fn source(self) -> Json {
        *self.value
    }

    /// The call is what recognizing its source yields.
    pub open spec fn wf(self) -> bool {
        Parsed::LazyOperation(self).wf()
    }

    /// Recognize a value as a call of a lazy operator. The arguments are
    /// kept as they stand, unparsed.
    ///
    /// A value that is not an object with one entry, or whose key is not a
    /// lazy operator's symbol, is no such call. A call whose value is not an
    /// array, or whose argument count the operator does not accept, is an
    /// error.
    pub fn from_value(value: &'a Json) -> (r: Result<Option<LazyOperation<'a>>, Error>)
        ensures
            match r {
                Err(e) => is_lazy_call(*value) && parse_error(*value) == Some(e@),
                Ok(None) => !is_lazy_call(*value),
                Ok(Some(op)) => {
                    &&& is_lazy_call(*value)
                    &&& parse_error(*value) is None
                    &&& op.wf()
                    &&& op.source() == *value
                },
            },
    {
        let obj = match value {
            Json::Object(obj) => obj,
            _ => return Ok(None),
        };
        if obj.len() != 1 {
            return Ok(None);
        }
        let key: &String = &obj[0].0;
        let val: &'a Json = &obj[0].1;
        let operator = match get_lazy_operator(key.as_str()) {
            Some(op) => op,
            None => return Ok(None),
        };
        proof {
            lemma_symbols();
        }
        let args: &'a Vec<Json> = match val {
            Json::Array(args) => args,
            _ => {
                return Err(
                    Error::InvalidOperation {
                        key: key.clone(),
                        reason: "Values for operator keys must be arrays".to_owned(),
                    },
                )
            },
        };
        match operator.args_are_valid_len(args) {
            Ok(()) => {},
            Err(exp_range) => {
                return Err(Error::WrongArgumentCount { expected: exp_range, actual: args.len() });
            },
        }
        Ok(Some(LazyOperation { operator, arguments: args, value }))
    }
}

impl<'a> Parsed<'a> {
    /// Evaluate the term against the data document `data`.
    pub fn evaluate(&self, data: &Json) -> (r: Result<Evaluated<'a>, Error>)
        requires
            self.wf(),
        ensures
            outcome(r) == eval(self.source(), *data),
        decreases self.source(), 3int,
    {
        match self {
            Parsed::Operation(o) => o.evaluate(data),
            Parsed::LazyOperation(l) => l.evaluate(data),
            Parsed::Raw(v) => Ok(Evaluated::Raw(*v)),
        }
    }
}

impl<'a> Operation<'a> {
    /// Evaluate the arguments in order, stopping at the first error, then
    /// run the operator on their values.
    pub fn evaluate(&self, data: &Json) -> (r: Result<Evaluated<'a>, Error>)
        requires
            self.wf(),
        ensures
            outcome(r) == eval(self.source(), *data),
        decreases self.source(), 2int,
    {
        proof {
            lemma_args_decrease(*self.value);
            assert(decreases_to!(call_args(*self.value) => call_args(*self.value)[0]));
            assert(decreases_to!(call_args(*self.value) => call_args(*self.value)[1]));
        }
        let first = match self.arguments[0].evaluate(data) {
            Ok(e) => e,
            Err(e) => return Err(e),
        };
        let second = match self.arguments[1].evaluate(data) {
            Ok(e) => e,
            Err(e) => return Err(e),
        };
        let mut items: Vec<&Json> = Vec::new();
        items.push(first.as_json());
        items.push(second.as_json());
        match self.operator.execute(&items) {
            Ok(v) => Ok(Evaluated::New(v)),
            Err(e) => Err(e),
        }
    }
}

impl<'a> LazyOperation<'a> {
    /// Hand the unevaluated arguments to the operator, which decides which
    /// of them to evaluate.
    pub fn evaluate(&self, data: &Json) -> (r: Result<Evaluated<'a>, Error>)
        requires
            self.wf(),
        ensures
            outcome(r) == eval(self.source(), *data),
        decreases self.source(), 2int,
    {
        proof {
            lemma_args_decrease(*self.value);
        }
        self.operator.execute(data, self.arguments)
    }
}

impl LazyOperator {
    /// Run the operator on its unevaluated arguments.
    pub fn execute<'a>(&self, data: &Json, items: &'a Vec<Json>) -> (r: Result<Evaluated<'a>, Error>)
        ensures
            outcome(r) == eval_control(self.spec_operator(), items@, *data),
        decreases items@, 1int,
    {
        match self.operator {
            Control::If => op_if(data, items),
            Control::Or => op_or(data, items),
            Control::And => op_and(data, items),
        }
    }
}

/// Recognize a value as a term and evaluate it against the data document
/// `data`.
pub fn evaluate<'a>(arg: &'a Json, data: &Json) -> (r: Result<Evaluated<'a>, Error>)
    ensures
        outcome(r) == eval(*arg, *data),
    decreases *arg, 4int,
{
    let parsed = match Parsed::from_value(arg) {
        Ok(p) => p,
        Err(e) => return Err(e),
    };
    parsed.evaluate(data)
}

/// The "if" operator: `[condition, then, else]`, or with more pairs,
/// `[c1, a, c2, b, else]` for an if / else-if / else chain.
fn op_if<'a>(data: &Json, args: &'a Vec<Json>) -> (r: Result<Evaluated<'a>, Error>)
    ensures
        outcome(r) == eval_if(args@, *data, 0, Json::Null, false),
    decreases args@, 0int,
{
    let mut last: Evaluated<'a> = Evaluated::New(Json::Null);
    let mut was_truthy = false;
    let mut i: usize = 0;
    while i < args.len()
        invariant
            0 <= i <= args@.len(),
            eval_if(args@, *data, 0, Json::Null, false) == eval_if(
                args@,
                *data,
                i as int,
                last.value(),
                was_truthy,
            ),
        decreases args@.len() - i,
    {
        proof {
            assert(decreases_to!(args@ => args@[i as int]));
        }
        if i % 2 == 0 {
            let evaluated = match evaluate(&args[i], data) {
                Ok(e) => e,
                Err(e) => return Err(e),
            };
            was_truthy = truthy_from_evaluated(&evaluated);
            last = evaluated;
        } else if was_truthy {
            return evaluate(&args[i], data);
        }
        i = i + 1;
    }
    Ok(last)
}

/// Short-circuiting "or": the first truthy argument, else the last one.
fn op_or<'a>(data: &Json, args: &'a Vec<Json>) -> (r: Result<Evaluated<'a>, Error>)
    ensures
        outcome(r) == eval_or(args@, *data, 0),
    decreases args@, 0int,
{
    let mut i: usize = 0;
    while i < args.len()
        invariant
            0 <= i <= args@.len(),
            eval_or(args@, *data, 0) == eval_or(args@, *data, i as int),
        decreases args@.len() - i,
    {
        proof {
            assert(decreases_to!(args@ => args@[i as int]));
        }
        let evaluated = match evaluate(&args[i], data) {
            Ok(e) => e,
            Err(e) => return Err(e),
        };
        if truthy_from_evaluated(&evaluated) || i + 1 == args.len() {
            return Ok(evaluated);
        }
        i = i + 1;
    }
    Err(Error::UnexpectedError("Or operation had no values to operate on".to_owned()))
}

/// Short-circuiting "and": the first falsey argument, else the last one.
fn op_and<'a>(data: &Json, args: &'a Vec<Json>) -> (r: Result<Evaluated<'a>, Error>)
    ensures
        outcome(r) == eval_and(args@, *data, 0),
    decreases args@, 0int,
{
    let mut i: usize = 0;
    while i < args.len()
        invariant
            0 <= i <= args@.len(),
            eval_and(args@, *data, 0) == eval_and(args@, *data, i as int),
        decreases args@.len() - i,
    {
        proof {
            assert(decreases_to!(args@ => args@[i as int]));
        }
        let evaluated = match evaluate(&args[i], data) {
            Ok(e) => e,
            Err(e) => return Err(e),
        };
        if !truthy_from_evaluated(&evaluated) || i + 1 == args.len() {
            return Ok(evaluated);
        }
        i = i + 1;
    }
    Err(Error::UnexpectedError("And operation had no values to operate on".to_owned()))
}

impl<'a> Parsed<'a> {
    /// Rebuild the JSON value the term stands for.
    pub fn to_value(&self) -> (r: Json)
        requires
            self.wf(),
        ensures
            same(r, self.source()),
        decreases self.source(), 1int,
    {
        match self {
            Parsed::Operation(o) => o.to_value(),
            Parsed::LazyOperation(l) => l.to_value(),
            Parsed::Raw(v) => v.deep_copy(),
        }
    }
}

impl<'a> Operation<'a> {
    /// Rebuild the call as a one-entry object that maps the operator's
    /// symbol to the array of its rebuilt arguments.
    pub fn to_value(&self) -> (r: Json)
        requires
            self.wf(),
        ensures
            same(r, self.source()),
        decreases self.source(), 0int,
    {
        proof {
            lemma_args_decrease(*self.value);
            assert(decreases_to!(call_args(*self.value) => call_args(*self.value)[0]));
            assert(decreases_to!(call_args(*self.value) => call_args(*self.value)[1]));
        }
        let mut values: Vec<Json> = Vec::new();
        values.push(self.arguments[0].to_value());
        values.push(self.arguments[1].to_value());
        let mut entries: Vec<(String, Json)> = Vec::new();
        entries.push((self.operator.symbol.to_owned(), Json::Array(values)));
        let r = Json::Object(entries);
        proof {
            let v = *self.value;
            if let Json::Object(e) = v {
                if let Json::Array(a) = e@[0].1 {
                    assert(same(Json::Array(values), Json::Array(a)));
                }
            }
        }
        r
    }
}

impl<'a> LazyOperation<'a> {
    /// Rebuild the call as a one-entry object that maps the operator's
    /// symbol to a copy of its arguments.
    pub fn to_value(&self) -> (r: Json)
        requires
            self.wf(),
        ensures
            same(r, self.source()),
    {
        let mut values: Vec<Json> = Vec::new();
        let mut i: usize = 0;
        while i < self.arguments.len()
            invariant
                0 <= i <= self.arguments@.len(),
                values@.len() == i,
                forall|j: int| 0 <= j < i ==> same(#[trigger] values@[j], self.arguments@[j]),
            decreases self.arguments@.len() - i,
        {
            values.push(self.arguments[i].deep_copy());
            i = i + 1;
        }
        let mut entries: Vec<(String, Json)> = Vec::new();
        entries.push((self.operator.symbol.to_owned(), Json::Array(values)));
        let r = Json::Object(entries);
        proof {
            let v = *self.value;
            if let Json::Object(e) = v {
                if let Json::Array(a) = e@[0].1 {
                    assert(same(Json::Array(values), Json::Array(a)));
                }
            }
        }
        r
    }
}

/// `or` yields its first argument's value when that value is truthy,
/// whatever the arguments after it are: they are not evaluated.
pub proof fn lemma_or_short_circuits(first: Json, rest: Seq<Json>, data: Json)
    requires
        eval(first, data) is Ok,
        spec_truthy(eval(first, data)->Ok_0),
    ensures
        eval_control(Control::Or, seq![first] + rest, data) == eval(first, data),
{
    let args = seq![first] + rest;
    assert(args[0] == first);
}

/// `and` yields its first argument's value when that value is falsey,
/// whatever the arguments after it are: they are not evaluated.
pub proof fn lemma_and_short_circuits(first: Json, rest: Seq<Json>, data: Json)
    requires
        eval(first, data) is Ok,
        !spec_truthy(eval(first, data)->Ok_0),
    ensures
        eval_control(Control::And, seq![first] + rest, data) == eval(first, data),
{
    let args = seq![first] + rest;
    assert(args[0] == first);
}

/// `if` with a condition and two branches yields the first branch when the
/// condition is truthy, else the second.
pub proof fn lemma_if_then_else(cond: Json, then: Json, otherwise: Json, data: Json)
    requires
        eval(cond, data) is Ok,
    ensures
        eval_control(Control::If, seq![cond, then, otherwise], data) == if spec_truthy(
            eval(cond, data)->Ok_0,
        ) {
            eval(then, data)
        } else {
            eval(otherwise, data)
        },
{
    let args = seq![cond, then, otherwise];
    let c = eval(cond, data)->Ok_0;
    assert(eval_if(args, data, 0, Json::Null, false) == eval_if(args, data, 1, c, spec_truthy(c)));
    if !spec_truthy(c) {
        assert(eval_if(args, data, 1, c, false) == eval_if(args, data, 2, c, false));
        match eval(otherwise, data) {
            Ok(x) => {
                assert(eval_if(args, data, 2, c, false) == eval_if(args, data, 3, x, spec_truthy(x)));
            },
            Err(_) => {},
        }
    }
}

/// `if` with two conditions, two branches and an else yields the first
/// branch when the first condition is truthy; else the second branch when
/// the second condition is truthy; else the else.
pub proof fn lemma_if_else_if(c1: Json, a: Json, c2: Json, b: Json, otherwise: Json, data: Json)
    requires
        eval(c1, data) is Ok,
        !spec_truthy(eval(c1, data)->Ok_0) ==> eval(c2, data) is Ok,
    ensures
        eval_control(Control::If, seq![c1, a, c2, b, otherwise], data) == if spec_truthy(
            eval(c1, data)->Ok_0,
        ) {
            eval(a, data)
        } else if spec_truthy(eval(c2, data)->Ok_0) {
            eval(b, data)
        } else {
            eval(otherwise, data)
        },
{
    let args = seq![c1, a, c2, b, otherwise];
    let x1 = eval(c1, data)->Ok_0;
    assert(eval_if(args, data, 0, Json::Null, false) == eval_if(args, data, 1, x1, spec_truthy(x1)));
    if !spec_truthy(x1) {
        let x2 = eval(c2, data)->Ok_0;
        assert(eval_if(args, data, 1, x1, false) == eval_if(args, data, 2, x1, false));
        assert(eval_if(args, data, 2, x1, false) == eval_if(args, data, 3, x2, spec_truthy(x2)));
        if !spec_truthy(x2) {
            assert(eval_if(args, data, 3, x2, false) == eval_if(args, data, 4, x2, false));
            match eval(otherwise, data) {
                Ok(x) => {
                    assert(eval_if(args, data, 4, x2, false) == eval_if(
                        args,
                        data,
                        5,
                        x,
                        spec_truthy(x),
                    ));
                },
                Err(_) => {},
            }
        }
    }
}

/// A call of `==` and a call of `===` on the same arguments differ exactly
/// when loose and strict equality differ on the arguments' values.
pub proof fn lemma_equality_delegates(loose: Json, strict: Json, data: Json)
    requires
        is_eager_call(loose),
        is_eager_call(strict),
        call_key(loose) == "=="@,
        call_key(strict) == "==="@,
        parse_error(loose) is None,
        call_args(strict) == call_args(loose),
        eval(call_args(loose)[0], data) is Ok,
        eval(call_args(loose)[1], data) is Ok,
    ensures
        ({
            let x = eval(call_args(loose)[0], data)->Ok_0;
            let y = eval(call_args(loose)[1], data)->Ok_0;
            &&& eval(loose, data) == Ok::<Json, ErrorView>(Json::Bool(spec_abstract_eq(x, y)))
            &&& eval(strict, data) == Ok::<Json, ErrorView>(Json::Bool(spec_strict_eq(x, y)))
            &&& (eval(loose, data) != eval(strict, data) <==> spec_abstract_eq(x, y)
                != spec_strict_eq(x, y))
        }),
{
    lemma_symbols();
    let x = eval(call_args(loose)[0], data)->Ok_0;
    let y = eval(call_args(loose)[1], data)->Ok_0;
    assert(spec_comparison(call_key(loose)) == Some(Comparison::AbstractEq));
    assert(seq!['=', '=', '='].len() != seq!['=', '='].len());
    assert(seq!['=', '=', '='].len() != seq!['!', '='].len());
    assert(spec_comparison(call_key(strict)) == Some(Comparison::StrictEq));
    assert(call_args(loose).len() == 2);
    assert(parse_error(strict) is None);
    assert(eval(loose, data) == Ok::<Json, ErrorView>(Json::Bool(spec_abstract_eq(x, y))));
    assert(eval(strict, data) == Ok::<Json, ErrorView>(Json::Bool(spec_strict_eq(x, y))));
}

} // verus!
