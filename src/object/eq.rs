//! Equality of objects: kinds must match, and contents compare element by element, in order.
use vstd::prelude::*;

use super::{
    bytes_equal, entries_value, items_value, lemma_entries_value_index, lemma_items_value_index,
    content_value, AsRawMutObject, Content, Keyed, Value, WafArray, WafBool, WafFloat, WafInvalid,
    WafMap, WafNull, WafObject, WafSigned, WafString, WafUnsigned,
};

verus! {

/// True when an `f64` bit pattern encodes a NaN.
pub open spec fn is_nan_bits(x: u64) -> bool {
    (x & 0x7ff0_0000_0000_0000u64) == 0x7ff0_0000_0000_0000u64 && (x & 0x000f_ffff_ffff_ffffu64) != 0
}

/// IEEE-754 equality of two `f64` values given by their bit patterns: NaN equals nothing, and
/// the two zeros are equal.
pub open spec fn float_bits_eq(x: u64, y: u64) -> bool {
    !is_nan_bits(x) && !is_nan_bits(y) && (x == y || ((x | y) & 0x7fff_ffff_ffff_ffffu64) == 0)
}

/// Equality of two object contents: the kinds must match; invalid and null values are equal to
/// any value of their kind; scalars compare by value (floats as `f64` do); strings, arrays and
/// maps compare by length and then element by element, in order, map keys included.
pub open spec fn value_eq(a: Value, b: Value) -> bool
    decreases a,
{
    match a {
        Value::Invalid => b is Invalid,
        Value::Signed(x) => b == Value::Signed(x),
        Value::Unsigned(x) => b == Value::Unsigned(x),
        Value::Str(x) => b == Value::Str(x),
        Value::List(x) => b is List && x.len() == b->List_0.len() && forall|i: int|
            0 <= i < x.len() ==> value_eq(#[trigger] x[i], b->List_0[i]),
        Value::Dict(x) => b is Dict && x.len() == b->Dict_0.len() && forall|i: int|
            0 <= i < x.len() ==> (#[trigger] x[i]).0 == b->Dict_0[i].0 && value_eq(x[i].1, b->Dict_0[i].1),
        Value::Bool(x) => b == Value::Bool(x),
        Value::Float(x) => b is Float && float_bits_eq(x, b->Float_0),
        Value::Null => b is Null,
    }
}

fn float_equal(x: u64, y: u64) -> (r: bool)
    ensures
        r == float_bits_eq(x, y),
{
    let x_nan = (x & 0x7ff0_0000_0000_0000u64) == 0x7ff0_0000_0000_0000u64 && (x & 0x000f_ffff_ffff_ffffu64) != 0;
    let y_nan = (y & 0x7ff0_0000_0000_0000u64) == 0x7ff0_0000_0000_0000u64 && (y & 0x000f_ffff_ffff_ffffu64) != 0;
    !x_nan && !y_nan && (x == y || ((x | y) & 0x7fff_ffff_ffff_ffffu64) == 0)
}

/// Compares two object contents.
pub(super) fn content_equal(a: Content<'_>, b: Content<'_>) -> (r: bool)
    ensures
        r == value_eq(content_value(a), content_value(b)),
    decreases content_value(a), 2nat,
{
    match (a, b) {
        (Content::Invalid, Content::Invalid) => true,
        (Content::Null, Content::Null) => true,
        (Content::Signed(x), Content::Signed(y)) => x == y,
        (Content::Unsigned(x), Content::Unsigned(y)) => x == y,
        (Content::Bool(x), Content::Bool(y)) => x == y,
        (Content::Float(x), Content::Float(y)) => float_equal(x, y),
        (Content::Str(x), Content::Str(y)) => bytes_equal(x, y),
        (Content::Array(x), Content::Array(y)) => items_equal(x, y),
        (Content::Dict(x), Content::Dict(y)) => entries_equal(x, y),
        _ => false,
    }
}

/// Compares two sequences of array elements, in order.
fn items_equal(a: &[WafObject], b: &[WafObject]) -> (r: bool)
    ensures
        r == value_eq(Value::List(items_value(a@)), Value::List(items_value(b@))),
    decreases Value::List(items_value(a@)), 1nat,
{
    if a.len() != b.len() {
        return false;
    }
    let mut i: usize = 0;
    while i < a.len()
        invariant
            a@.len() == b@.len(),
            0 <= i <= a@.len(),
            forall|j: int| 0 <= j < i ==> value_eq(#[trigger] items_value(a@)[j], items_value(b@)[j]),
        decreases a@.len() - i,
    {
        proof {
            lemma_items_value_index(a@, i as int);
            lemma_items_value_index(b@, i as int);
        }
        let ca = a[i].content();
        proof {
            let s = items_value(a@);
            let v = Value::List(s);
            assert(decreases_to!(v => v->List_0));
            assert(decreases_to!(s => s[i as int]));
            assert(content_value(ca) == s[i as int]);
        }
        if !content_equal(ca, b[i].content()) {
            return false;
        }
        i = i + 1;
    }
    proof {
        if a@.len() > 0 {
            lemma_items_value_index(a@, 0);
            lemma_items_value_index(b@, 0);
        }
    }
    true
}

/// Compares two sequences of map entries, in order, keys included.
fn entries_equal(a: &[Keyed<WafObject>], b: &[Keyed<WafObject>]) -> (r: bool)
    ensures
        r == value_eq(Value::Dict(entries_value(a@)), Value::Dict(entries_value(b@))),
    decreases Value::Dict(entries_value(a@)), 1nat,
{
    if a.len() != b.len() {
        return false;
    }
    let mut i: usize = 0;
    while i < a.len()
        invariant
            a@.len() == b@.len(),
            0 <= i <= a@.len(),
            forall|j: int| 0 <= j < i ==> (#[trigger] entries_value(a@)[j]).0 == entries_value(b@)[j].0
                && value_eq(entries_value(a@)[j].1, entries_value(b@)[j].1),
        decreases a@.len() - i,
    {
        proof {
            lemma_entries_value_index(a@, i as int);
            lemma_entries_value_index(b@, i as int);
        }
        if !bytes_equal(a[i].raw_key(), b[i].raw_key()) {
            return false;
        }
        let ca = a[i].content();
        proof {
            let s = entries_value(a@);
            let v = Value::Dict(s);
            assert(decreases_to!(v => v->Dict_0));
            assert(decreases_to!(s => s[i as int]));
            assert(decreases_to!(s[i as int] => s[i as int].1));
            assert(content_value(ca) == s[i as int].1);
        }
        if !content_equal(ca, b[i].content()) {
            return false;
        }
        i = i + 1;
    }
    proof {
        if a@.len() > 0 {
            lemma_entries_value_index(a@, 0);
            lemma_entries_value_index(b@, 0);
        }
    }
    true
}

impl<T: AsRawMutObject> PartialEq<T> for WafObject {
    fn eq(&self, other: &T) -> (r: bool) {
        content_equal(self.content(), other.content())
    }
}

impl<T: AsRawMutObject> vstd::std_specs::cmp::PartialEqSpecImpl<T> for WafObject {
    open spec fn obeys_eq_spec() -> bool {
        true
    }

    open spec fn eq_spec(&self, other: &T) -> bool {
        value_eq(self.value_spec(), other.value_spec())
    }
}

impl<T: AsRawMutObject> PartialEq<T> for WafInvalid {
    fn eq(&self, other: &T) -> (r: bool) {
        content_equal(self.content(), other.content())
    }
}

impl<T: AsRawMutObject> vstd::std_specs::cmp::PartialEqSpecImpl<T> for WafInvalid {
    open spec fn obeys_eq_spec() -> bool {
        true
    }

    open spec fn eq_spec(&self, other: &T) -> bool {
        value_eq(self.value_spec(), other.value_spec())
    }
}

impl<T: AsRawMutObject> PartialEq<T> for WafSigned {
    fn eq(&self, other: &T) -> (r: bool) {
        content_equal(self.content(), other.content())
    }
}

impl<T: AsRawMutObject> vstd::std_specs::cmp::PartialEqSpecImpl<T> for WafSigned {
    open spec fn obeys_eq_spec() -> bool {
        true
    }

    open spec fn eq_spec(&self, other: &T) -> bool {
        value_eq(self.value_spec(), other.value_spec())
    }
}

impl<T: AsRawMutObject> PartialEq<T> for WafUnsigned {
    fn eq(&self, other: &T) -> (r: bool) {
        content_equal(self.content(), other.content())
    }
}

impl<T: AsRawMutObject> vstd::std_specs::cmp::PartialEqSpecImpl<T> for WafUnsigned {
    open spec fn obeys_eq_spec() -> bool {
        true
    }

    open spec fn eq_spec(&self, other: &T) -> bool {
        value_eq(self.value_spec(), other.value_spec())
    }
}

impl<T: AsRawMutObject> PartialEq<T> for WafString {
    fn eq(&self, other: &T) -> (r: bool) {
        content_equal(self.content(), other.content())
    }
}

impl<T: AsRawMutObject> vstd::std_specs::cmp::PartialEqSpecImpl<T> for WafString {
    open spec fn obeys_eq_spec() -> bool {
        true
    }

    open spec fn eq_spec(&self, other: &T) -> bool {
        value_eq(self.value_spec(), other.value_spec())
    }
}

impl<T: AsRawMutObject> PartialEq<T> for WafArray {
    fn eq(&self, other: &T) -> (r: bool) {
        content_equal(self.content(), other.content())
    }
}

impl<T: AsRawMutObject> vstd::std_specs::cmp::PartialEqSpecImpl<T> for WafArray {
    open spec fn obeys_eq_spec() -> bool {
        true
    }

    open spec fn eq_spec(&self, other: &T) -> bool {
        value_eq(self.value_spec(), other.value_spec())
    }
}

impl<T: AsRawMutObject> PartialEq<T> for WafMap {
    fn eq(&self, other: &T) -> (r: bool) {
        content_equal(self.content(), other.content())
    }
}

impl<T: AsRawMutObject> vstd::std_specs::cmp::PartialEqSpecImpl<T> for WafMap {
    open spec fn obeys_eq_spec() -> bool {
        true
    }

    open spec fn eq_spec(&self, other: &T) -> bool {
        value_eq(self.value_spec(), other.value_spec())
    }
}

impl<T: AsRawMutObject> PartialEq<T> for WafBool {
    fn eq(&self, other: &T) -> (r: bool) {
        content_equal(self.content(), other.content())
    }
}

impl<T: AsRawMutObject> vstd::std_specs::cmp::PartialEqSpecImpl<T> for WafBool {
    open spec fn obeys_eq_spec() -> bool {
        true
    }

    open spec fn eq_spec(&self, other: &T) -> bool {
        value_eq(self.value_spec(), other.value_spec())
    }
}

impl<T: AsRawMutObject> PartialEq<T> for WafFloat {
    fn eq(&self, other: &T) -> (r: bool) {
        content_equal(self.content(), other.content())
    }
}

impl<T: AsRawMutObject> vstd::std_specs::cmp::PartialEqSpecImpl<T> for WafFloat {
    open spec fn obeys_eq_spec() -> bool {
        true
    }

    open spec fn eq_spec(&self, other: &T) -> bool {
        value_eq(self.value_spec(), other.value_spec())
    }
}

impl<T: AsRawMutObject> PartialEq<T> for WafNull {
    fn eq(&self, other: &T) -> (r: bool) {
        content_equal(self.content(), other.content())
    }
}

impl<T: AsRawMutObject> vstd::std_specs::cmp::PartialEqSpecImpl<T> for WafNull {
    open spec fn obeys_eq_spec() -> bool {
        true
    }

    open spec fn eq_spec(&self, other: &T) -> bool {
        value_eq(self.value_spec(), other.value_spec())
    }
}

/// True when a value holds a NaN somewhere.
pub open spec fn has_nan(v: Value) -> bool
    decreases v,
{
    match v {
        Value::Float(x) => is_nan_bits(x),
        Value::List(s) => exists|i: int| 0 <= i < s.len() && has_nan(#[trigger] s[i]),
        Value::Dict(d) => exists|i: int| 0 <= i < d.len() && has_nan((#[trigger] d[i]).1),
        _ => false,
    }
}

/// Every value without a NaN equals itself.
pub proof fn law_eq_reflexive(v: Value)
    requires
        !has_nan(v),
    ensures
        value_eq(v, v),
    decreases v,
{
    match v {
        Value::List(s) => {
            assert forall|i: int| 0 <= i < s.len() implies value_eq(#[trigger] s[i], s[i]) by {
                law_eq_reflexive(s[i]);
            }
        },
        Value::Dict(d) => {
            assert forall|i: int| 0 <= i < d.len() implies (#[trigger] d[i]).0 == d[i].0 && value_eq(d[i].1, d[i].1) by {
                law_eq_reflexive(d[i].1);
            }
        },
        _ => {},
    }
}

/// Map equality depends on the order of the entries: two entries with different keys, swapped,
/// give a map that is not equal to the first.
pub proof fn law_map_order_matters(k1: Seq<u8>, v1: Value, k2: Seq<u8>, v2: Value)
    requires
        k1 != k2,
    ensures
        !value_eq(Value::Dict(seq![(k1, v1), (k2, v2)]), Value::Dict(seq![(k2, v2), (k1, v1)])),
{
    let a = seq![(k1, v1), (k2, v2)];
    let b = seq![(k2, v2), (k1, v1)];
    assert(a[0].0 != b[0].0);
}

/// An invalid value equals any other invalid value and a null value any other null value,
/// whatever else they carry; a null value never equals an invalid one.
pub proof fn law_invalid_and_null_eq()
    ensures
        value_eq(Value::Invalid, Value::Invalid),
        value_eq(Value::Null, Value::Null),
        !value_eq(Value::Null, Value::Invalid),
        !value_eq(Value::Invalid, Value::Null),
{
}

/// Values of different kinds are never equal.
pub proof fn law_eq_needs_same_kind(a: Value, b: Value)
    requires
        a.kind() != b.kind(),
    ensures
        !value_eq(a, b),
{
}

} // verus!
