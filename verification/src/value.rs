//! The values that fields of an index hold.
use vstd::prelude::*;

verus! {

/// A value of a field. A fractional number is given by its IEEE 754 bits, a date by its
/// nanoseconds since the Unix epoch.
#[derive(Debug, PartialEq, Eq)]
pub enum TantivyValue {
    Str(String),
    U64(u64),
    I64(i64),
    F64(u64),
    Bool(bool),
    Date(i64),
}

/// A [`TantivyValue`] with the characters of its text.
pub enum ValueView {
    Str(Seq<char>),
    U64(u64),
    I64(i64),
    F64(u64),
    Bool(bool),
    Date(i64),
}

impl View for TantivyValue {
    type V = ValueView;

    open spec fn view(&self) -> ValueView {
        match self {
            TantivyValue::Str(text) => ValueView::Str(text@),
            TantivyValue::U64(value) => ValueView::U64(*value),
            TantivyValue::I64(value) => ValueView::I64(*value),
            TantivyValue::F64(bits) => ValueView::F64(*bits),
            TantivyValue::Bool(value) => ValueView::Bool(*value),
            TantivyValue::Date(nanos) => ValueView::Date(*nanos),
        }
    }
}

/// The bits of a fractional number without its sign.
pub open spec fn magnitude(bits: u64) -> u64 {
    if bits >= 0x8000_0000_0000_0000 {
        (bits - 0x8000_0000_0000_0000) as u64
    } else {
        bits
    }
}

/// The bits are those of no number.
pub open spec fn is_nan(bits: u64) -> bool {
    magnitude(bits) > 0x7ff0_0000_0000_0000
}

/// Two values are equal: of one type, and the same. Of fractional numbers, the two zeros are equal,
/// and what is not a number equals nothing.
pub open spec fn same_value(left: ValueView, right: ValueView) -> bool {
    match (left, right) {
        (ValueView::F64(a), ValueView::F64(b)) => {
            &&& !is_nan(a)
            &&& !is_nan(b)
            &&& a == b || (magnitude(a) == 0 && magnitude(b) == 0)
        },
        _ => left == right,
    }
}

/// A value as a tuple that equals that of another value exactly where the two values are equal.
pub type Key = (u8, u64, i64, String);

/// A [`Key`] with the characters of its text.
pub type KeyView = (u8, u64, i64, Seq<char>);

/// The view of a key.
pub open spec fn key_view(key: Key) -> KeyView {
    (key.0, key.1, key.2, key.3@)
}

/// The key of a value. What is not a number has none: it equals nothing.
pub open spec fn key_of(value: ValueView) -> Option<KeyView> {
    match value {
        ValueView::Str(text) => Some((0u8, 0u64, 0i64, text)),
        ValueView::U64(value) => Some((1u8, value, 0i64, Seq::empty())),
        ValueView::I64(value) => Some((2u8, 0u64, value, Seq::empty())),
        ValueView::F64(bits) => if is_nan(bits) {
            None
        } else if magnitude(bits) == 0 {
            Some((3u8, 0u64, 0i64, Seq::empty()))
        } else {
            Some((3u8, bits, 0i64, Seq::empty()))
        },
        ValueView::Bool(value) => Some(
            (
                4u8,
                if value {
                    1u64
                } else {
                    0u64
                },
                0i64,
                Seq::empty(),
            ),
        ),
        ValueView::Date(nanos) => Some((5u8, 0u64, nanos, Seq::empty())),
    }
}

/// Two values are equal exactly if they have the same key.
pub proof fn law_keys_tell_values_apart(left: ValueView, right: ValueView)
    ensures
        same_value(left, right) <==> key_of(left) is Some && key_of(left) == key_of(right),
{
}

impl TantivyValue {
    /// The key of the value.
    pub fn key(&self) -> (r: Option<Key>)
        ensures
            match r {
                Some(key) => key_of(self@) == Some(key_view(key)),
                None => key_of(self@) is None,
            },
    {
        match self {
            TantivyValue::Str(text) => Some((0, 0, 0, text.clone())),
            TantivyValue::U64(value) => Some((1, *value, 0, String::new())),
            TantivyValue::I64(value) => Some((2, 0, *value, String::new())),
            TantivyValue::F64(bits) => {
                let magnitude: u64 = if *bits >= 0x8000_0000_0000_0000 {
                    *bits - 0x8000_0000_0000_0000
                } else {
                    *bits
                };
                if magnitude > 0x7ff0_0000_0000_0000 {
                    None
                } else if magnitude == 0 {
                    Some((3, 0, 0, String::new()))
                } else {
                    Some((3, *bits, 0, String::new()))
                }
            },
            TantivyValue::Bool(value) => Some(
                (
                    4,
                    if *value {
                        1
                    } else {
                        0
                    },
                    0,
                    String::new(),
                ),
            ),
            TantivyValue::Date(nanos) => Some((5, 0, *nanos, String::new())),
        }
    }
}

/// A view of a value holds all that the value does.
pub proof fn law_views_hold_all(value: TantivyValue)
    ensures
        match value {
            TantivyValue::Str(text) => value@ == ValueView::Str(text@),
            TantivyValue::U64(number) => value@ == ValueView::U64(number),
            TantivyValue::I64(number) => value@ == ValueView::I64(number),
            TantivyValue::F64(bits) => value@ == ValueView::F64(bits),
            TantivyValue::Bool(truth) => value@ == ValueView::Bool(truth),
            TantivyValue::Date(nanos) => value@ == ValueView::Date(nanos),
        },
{
}

/// Values other than fractional numbers are equal exactly if they are the same; so no two values of
/// different types are. Fractional numbers are equal if they have the same bits and those are of a
/// number, or if both are zero, of whatever sign.
pub proof fn law_equality_of_values(left: ValueView, right: ValueView, a: u64, b: u64)
    ensures
        !(left is F64 && right is F64) ==> (same_value(left, right) <==> left == right),
        same_value(ValueView::F64(a), ValueView::F64(b)) <==> {
            ||| a == b && (a <= 0x7ff0_0000_0000_0000 || 0x8000_0000_0000_0000 <= a
                <= 0xfff0_0000_0000_0000)
            ||| (a == 0 || a == 0x8000_0000_0000_0000) && (b == 0 || b == 0x8000_0000_0000_0000)
        },
{
}

/// Equality of values goes both ways and from one value over another to a third.
pub proof fn law_equality_is_consistent(a: ValueView, b: ValueView, c: ValueView)
    ensures
        same_value(a, b) ==> same_value(b, a),
        same_value(a, b) && same_value(b, c) ==> same_value(a, c),
{
}

} // verus!
