//! The values that expressions in a template evaluate to.

use vstd::prelude::*;
use vstd::string::StringExecFns;
use crate::ordered_map::{OrderedMap, distinct_names, lemma_put_new_name};

verus! {

/// An evaluated expression: what stands to the right of `=` in an attribute
/// or between braces.
#[derive(Debug, Clone, PartialEq, Eq)]
pub enum Value {
    Text(String),
    Bool(bool),
    I32(i32),
    I64(i64),
    U32(u32),
    U64(u64),
}

/// The types of whole numbers that a value can have.
#[derive(Debug, Clone, Copy, PartialEq, Eq, Hash, Structural)]
pub enum NumberKind {
    I32,
    I64,
    U32,
    U64,
}

/// The mathematical content of a [`Value`].
pub ghost enum ValueView {
    Text(Seq<char>),
    Bool(bool),
    Number { kind: NumberKind, value: int },
}

impl View for Value {
    type V = ValueView;

    open spec fn view(&self) -> ValueView {
        match *self {
            Value::Text(s) => ValueView::Text(s@),
            Value::Bool(b) => ValueView::Bool(b),
            Value::I32(n) => ValueView::Number { kind: NumberKind::I32, value: n as int },
            Value::I64(n) => ValueView::Number { kind: NumberKind::I64, value: n as int },
            Value::U32(n) => ValueView::Number { kind: NumberKind::U32, value: n as int },
            Value::U64(n) => ValueView::Number { kind: NumberKind::U64, value: n as int },
        }
    }
}

/// The numbers that a kind of number holds.
pub open spec fn holds(kind: NumberKind, value: int) -> bool {
    match kind {
        NumberKind::I32 => i32::MIN <= value <= i32::MAX,
        NumberKind::I64 => i64::MIN <= value <= i64::MAX,
        NumberKind::U32 => 0 <= value <= u32::MAX,
        NumberKind::U64 => 0 <= value <= u64::MAX,
    }
}

/// Whether every number of the kind `from` is a number of the kind `to`.
pub open spec fn widens(from: NumberKind, to: NumberKind) -> bool {
    from == to || (from == NumberKind::U32 && to == NumberKind::U64) || (from == NumberKind::U32
        && to == NumberKind::I64) || (from == NumberKind::I32 && to == NumberKind::I64)
}

/// One decimal digit as text.
pub open spec fn digit(d: nat) -> Seq<char> {
    if d == 0 {
        "0"@
    } else if d == 1 {
        "1"@
    } else if d == 2 {
        "2"@
    } else if d == 3 {
        "3"@
    } else if d == 4 {
        "4"@
    } else if d == 5 {
        "5"@
    } else if d == 6 {
        "6"@
    } else if d == 7 {
        "7"@
    } else if d == 8 {
        "8"@
    } else {
        "9"@
    }
}

/// A natural number in decimal digits, without leading zeros.
pub open spec fn digits(n: nat) -> Seq<char>
    decreases n,
{
    if n < 10 {
        digit(n)
    } else {
        digits(n / 10) + digit(n % 10)
    }
}

/// A whole number in decimal digits, with `-` before a negative one.
pub open spec fn decimal(n: int) -> Seq<char> {
    if n < 0 {
        "-"@ + digits((-n) as nat)
    } else {
        digits(n as nat)
    }
}

/// The text a value is written as: a text is itself, a boolean is `true`
/// or `false`.
pub open spec fn text_of(v: ValueView) -> Seq<char> {
    match v {
        ValueView::Text(s) => s,
        ValueView::Bool(b) => if b {
            "true"@
        } else {
            "false"@
        },
        ValueView::Number { value, .. } => decimal(value),
    }
}

/// Whether a value counts as true: a boolean that is `true`, a text that
/// is not empty, a number that is not zero.
pub open spec fn truthy(v: ValueView) -> bool {
    match v {
        ValueView::Text(s) => s.len() > 0,
        ValueView::Bool(b) => b,
        ValueView::Number { value, .. } => value != 0,
    }
}

/// The value to assign to a field that now holds `target`, for the value
/// `given` in the template. A text goes to a field of text and a boolean
/// to a field of booleans as they are. A number goes to a field of numbers
/// whose kind holds every number of the kind given, and becomes a number
/// of that kind. Nothing else can be assigned.
pub open spec fn transform_spec(target: ValueView, given: ValueView) -> Option<ValueView> {
    match (target, given) {
        (ValueView::Text(_), ValueView::Text(_)) => Some(given),
        (ValueView::Bool(_), ValueView::Bool(_)) => Some(given),
        (ValueView::Number { kind: to, .. }, ValueView::Number { kind: from, value }) => if widens(
            from,
            to,
        ) {
            Some(ValueView::Number { kind: to, value })
        } else {
            None
        },
        _ => None,
    }
}

/// A value that was assigned has the kind of what the field held, and a
/// number that was assigned is the number that was given.
pub proof fn law_transform_keeps_kind_and_number(target: ValueView, given: ValueView)
    requires
        transform_spec(target, given) is Some,
    ensures
        target is Text == transform_spec(target, given)->Some_0 is Text,
        target is Bool == transform_spec(target, given)->Some_0 is Bool,
        target matches ValueView::Number { kind, .. } ==> transform_spec(target, given)->Some_0
            == (ValueView::Number { kind, value: given->value }),
        given matches ValueView::Number { kind, value } ==> (holds(kind, value) ==> holds(
            target->kind,
            value,
        )),
        text_of(transform_spec(target, given)->Some_0) == text_of(given),
        transform_spec(target, target) == Some(target),
{
}

fn digit_text(d: u64) -> (r: &'static str)
    requires
        d < 10,
    ensures
        r@ == digit(d as nat),
{
    if d == 0 {
        "0"
    } else if d == 1 {
        "1"
    } else if d == 2 {
        "2"
    } else if d == 3 {
        "3"
    } else if d == 4 {
        "4"
    } else if d == 5 {
        "5"
    } else if d == 6 {
        "6"
    } else if d == 7 {
        "7"
    } else if d == 8 {
        "8"
    } else {
        "9"
    }
}

fn digits_text(n: u64) -> (r: String)
    ensures
        r@ == digits(n as nat),
    decreases n,
{
    if n < 10 {
        String::from_str(digit_text(n))
    } else {
        let mut s: String = digits_text(n / 10);
        s.append(digit_text(n % 10));
        s
    }
}

fn decimal_text(negative: bool, size: u64) -> (r: String)
    requires
        negative ==> size > 0,
    ensures
        r@ == decimal(
            if negative {
                -(size as int)
            } else {
                size as int
            },
        ),
{
    if negative {
        let mut s: String = String::from_str("-");
        let d: String = digits_text(size);
        s.append(d.as_str());
        s
    } else {
        digits_text(size)
    }
}

/// Converts `given`, as the template has it, to the kind of value that a
/// field holding `target` takes.
pub fn transform(target: &Value, given: &Value) -> (r: Option<Value>)
    ensures
        (match transform_spec(target@, given@) {
            Some(v) => r is Some && r->Some_0@ == v,
            None => r is None,
        }),
{
    match (target, given) {
        (Value::Text(_), Value::Text(s)) => Some(Value::Text(s.clone())),
        (Value::Bool(_), Value::Bool(b)) => Some(Value::Bool(*b)),
        (Value::I32(_), Value::I32(n)) => Some(Value::I32(*n)),
        (Value::I64(_), Value::I64(n)) => Some(Value::I64(*n)),
        (Value::I64(_), Value::I32(n)) => Some(Value::I64(*n as i64)),
        (Value::I64(_), Value::U32(n)) => Some(Value::I64(*n as i64)),
        (Value::U32(_), Value::U32(n)) => Some(Value::U32(*n)),
        (Value::U64(_), Value::U64(n)) => Some(Value::U64(*n)),
        (Value::U64(_), Value::U32(n)) => Some(Value::U64(*n as u64)),
        _ => None,
    }
}

fn signed_text(n: i64) -> (r: String)
    ensures
        r@ == decimal(n as int),
{
    if n < 0 {
        let size: u64 = (-(n + 1)) as u64 + 1;
        decimal_text(true, size)
    } else {
        decimal_text(false, n as u64)
    }
}

impl Value {
    /// A text value.
    pub fn text(s: &str) -> (r: Value)
        ensures
            r@ == ValueView::Text(s@),
    {
        Value::Text(String::from_str(s))
    }

    /// The value written as text.
    pub fn to_text(&self) -> (r: String)
        ensures
            r@ == text_of(self@),
    {
        match self {
            Value::Text(s) => s.clone(),
            Value::Bool(b) => if *b {
                String::from_str("true")
            } else {
                String::from_str("false")
            },
            Value::I32(n) => signed_text(*n as i64),
            Value::I64(n) => signed_text(*n),
            Value::U32(n) => decimal_text(false, *n as u64),
            Value::U64(n) => decimal_text(false, *n),
        }
    }

    /// Whether the value counts as true.
    pub fn is_truthy(&self) -> (r: bool)
        ensures
            r == truthy(self@),
    {
        match self {
            Value::Text(s) => !s.as_str().is_empty(),
            Value::Bool(b) => *b,
            Value::I32(n) => *n != 0,
            Value::I64(n) => *n != 0,
            Value::U32(n) => *n != 0,
            Value::U64(n) => *n != 0,
        }
    }

    /// A copy that holds the same value.
    pub fn duplicate(&self) -> (r: Value)
        ensures
            r@ == self@,
    {
        match self {
            Value::Text(s) => Value::Text(s.clone()),
            Value::Bool(b) => Value::Bool(*b),
            Value::I32(n) => Value::I32(*n),
            Value::I64(n) => Value::I64(*n),
            Value::U32(n) => Value::U32(*n),
            Value::U64(n) => Value::U64(*n),
        }
    }
}

impl OrderedMap<Value> {
    /// A copy that holds the same names and values in the same order.
    pub fn duplicate(&self) -> (r: Self)
        ensures
            r@ == self@,
    {
        let n: usize = self.len();
        let mut r: OrderedMap<Value> = OrderedMap::new();
        let mut i: usize = 0;
        while i < n
            invariant
                i <= n,
                n == self@.len(),
                distinct_names(self@),
                r@ == self@.take(i as int),
            decreases n - i,
        {
            let (name, value) = self.entry(i);
            proof {
                let done = self@.take(i as int);
                assert forall|j: int| 0 <= j < done.len() implies (#[trigger] done[j]).0 != name@ by {
                    assert(self@[j].0 != self@[i as int].0);
                }
                lemma_put_new_name(done, name@, value@);
                assert(self@.take(i + 1) =~= done.push(self@[i as int]));
            }
            r.set(name.clone(), value.duplicate());
            i = i + 1;
        }
        assert(self@.take(n as int) =~= self@);
        r
    }
}

} // verus!
