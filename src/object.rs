//! Data model for exchanging data with the in-app WAF.
mod convert;
mod eq;
mod fmt;
mod iter;

pub use convert::{
    group_object_conversions, law_keyed_round_trip, law_view_round_trip, lemma_array_from_items,
    lemma_bool_new, lemma_entries_value, lemma_entries_value_len, lemma_generic_spec,
    lemma_items_value, lemma_items_value_len, lemma_map_from_entries, lemma_null_new,
    lemma_object_spec, lemma_signed_new, lemma_unsigned_new,
};
pub use eq::{
    float_bits_eq, has_nan, is_nan_bits, law_eq_needs_same_kind, law_eq_reflexive,
    law_invalid_and_null_eq, law_map_order_matters, value_eq,
};
pub use fmt::{
    array_close, array_open, bin_text, bool_open, close_paren, debug_text, decimal, dict_text,
    entry_text, escaped_byte, false_text, float_open, fmt_bin_str, has_float, hex_digit,
    invalid_text, is_ascii_bytes, key_close, list_text, map_close, map_open, null_text, quote,
    separator, signed_decimal, signed_open, string_close, string_open, true_text, unsigned_open,
};
pub use iter::WafIter;

use vstd::prelude::*;
use vstd::string::StringSliceAdditionalSpecFns;
use vstd::utf8::valid_utf8;

verus! {

/// Identifies the type of the value stored in a [`WafObject`].
#[non_exhaustive]
#[derive(Copy, Clone, Debug, PartialEq, Eq, Structural)]
pub enum WafObjectType {
    /// An invalid value. This can be used as a placeholder to retain the key
    /// associated with an object that was only partially encoded.
    Invalid,
    /// A signed integer with 64-bit precision.
    Signed,
    /// An unsigned integer with 64-bit precision.
    Unsigned,
    /// A string value.
    String,
    /// An array of [`WafObject`]s.
    Array,
    /// A map of string-keyed [`WafObject`]s.
    Mapping,
    /// A boolean value.
    Bool,
    /// A floating point value (64-bit precision), held as its IEEE-754 bit pattern.
    Float,
    /// The null value.
    Null,
}

#[verifier::external_type_specification]
#[verifier::external_body]
pub struct ExUtf8Error(core::str::Utf8Error);

/// Relies on `std::str::from_utf8`: it succeeds exactly on valid UTF-8, and the string it
/// returns then holds the very same bytes.
#[verifier::external_body]
fn utf8_str(bytes: &[u8]) -> (r: Result<&str, core::str::Utf8Error>)
    ensures
        r is Ok <==> valid_utf8(bytes@),
        r is Ok ==> r->Ok_0.spec_bytes() == bytes@,
{
    core::str::from_utf8(bytes)
}

/// The error that is returned when a raw type discriminator is not a known [`WafObjectType`].
#[derive(Copy, Clone, Debug)]
pub struct UnknownObjectTypeError(pub u32);

/// The error that is returned when a [`WafObject`] does not have the expected [`WafObjectType`].
#[derive(Copy, Clone, Debug)]
pub struct ObjectTypeError {
    pub expected: WafObjectType,
    pub actual: WafObjectType,
}

/// The raw discriminator that the engine uses for each [`WafObjectType`].
pub open spec fn raw_type(t: WafObjectType) -> u32 {
    match t {
        WafObjectType::Invalid => 0,
        WafObjectType::Signed => 1,
        WafObjectType::Unsigned => 2,
        WafObjectType::String => 4,
        WafObjectType::Array => 8,
        WafObjectType::Mapping => 16,
        WafObjectType::Bool => 32,
        WafObjectType::Float => 64,
        WafObjectType::Null => 128,
    }
}

impl WafObjectType {
    /// Returns the raw discriminator the engine uses for this [`WafObjectType`].
    pub fn as_raw(self) -> (r: u32)
        ensures
            r == raw_type(self),
    {
        match self {
            WafObjectType::Invalid => 0,
            WafObjectType::Signed => 1,
            WafObjectType::Unsigned => 2,
            WafObjectType::String => 4,
            WafObjectType::Array => 8,
            WafObjectType::Mapping => 16,
            WafObjectType::Bool => 32,
            WafObjectType::Float => 64,
            WafObjectType::Null => 128,
        }
    }
}

/// The [`WafObjectType`] a raw discriminator denotes, if any.
pub open spec fn type_of_raw(raw: u32) -> Result<WafObjectType, UnknownObjectTypeError> {
    if raw == 0 {
        Ok(WafObjectType::Invalid)
    } else if raw == 1 {
        Ok(WafObjectType::Signed)
    } else if raw == 2 {
        Ok(WafObjectType::Unsigned)
    } else if raw == 4 {
        Ok(WafObjectType::String)
    } else if raw == 8 {
        Ok(WafObjectType::Array)
    } else if raw == 16 {
        Ok(WafObjectType::Mapping)
    } else if raw == 32 {
        Ok(WafObjectType::Bool)
    } else if raw == 64 {
        Ok(WafObjectType::Float)
    } else if raw == 128 {
        Ok(WafObjectType::Null)
    } else {
        Err(UnknownObjectTypeError(raw))
    }
}

impl WafObjectType {
    /// The type a raw discriminator denotes, with [`WafObjectType::Invalid`] standing for every
    /// value no type denotes (an unknown or corrupt discriminator).
    pub fn from_raw_or_invalid(raw: u32) -> (r: WafObjectType)
        ensures
            r == (match type_of_raw(raw) {
                Ok(t) => t,
                Err(_) => WafObjectType::Invalid,
            }),
    {
        match WafObjectType::try_from(raw) {
            Ok(t) => t,
            Err(_) => WafObjectType::Invalid,
        }
    }
}

impl TryFrom<u32> for WafObjectType {
    type Error = UnknownObjectTypeError;

    fn try_from(raw: u32) -> (r: Result<Self, UnknownObjectTypeError>) {
        if raw == 0 {
            Ok(WafObjectType::Invalid)
        } else if raw == 1 {
            Ok(WafObjectType::Signed)
        } else if raw == 2 {
            Ok(WafObjectType::Unsigned)
        } else if raw == 4 {
            Ok(WafObjectType::String)
        } else if raw == 8 {
            Ok(WafObjectType::Array)
        } else if raw == 16 {
            Ok(WafObjectType::Mapping)
        } else if raw == 32 {
            Ok(WafObjectType::Bool)
        } else if raw == 64 {
            Ok(WafObjectType::Float)
        } else if raw == 128 {
            Ok(WafObjectType::Null)
        } else {
            Err(UnknownObjectTypeError(raw))
        }
    }
}

impl vstd::std_specs::convert::TryFromSpecImpl<u32> for WafObjectType {
    open spec fn obeys_try_from_spec() -> bool {
        true
    }

    open spec fn try_from_spec(raw: u32) -> Result<Self, UnknownObjectTypeError> {
        type_of_raw(raw)
    }
}


/// The mathematical content of a WAF object: its kind and payload, without its own key.
///
/// Array elements are described by their values alone (the engine ignores keys there), while
/// map entries carry their key next to their value.
pub enum Value {
    Invalid,
    Signed(i64),
    Unsigned(u64),
    Str(Seq<u8>),
    List(Seq<Value>),
    Dict(Seq<(Seq<u8>, Value)>),
    Bool(bool),
    Float(u64),
    Null,
}

impl Value {
    /// The type discriminator of a value.
    pub open spec fn kind(self) -> WafObjectType {
        match self {
            Value::Invalid => WafObjectType::Invalid,
            Value::Signed(_) => WafObjectType::Signed,
            Value::Unsigned(_) => WafObjectType::Unsigned,
            Value::Str(_) => WafObjectType::String,
            Value::List(_) => WafObjectType::Array,
            Value::Dict(_) => WafObjectType::Mapping,
            Value::Bool(_) => WafObjectType::Bool,
            Value::Float(_) => WafObjectType::Float,
            Value::Null => WafObjectType::Null,
        }
    }
}

/// An invalid object.
pub struct WafInvalid {
    key: Option<Vec<u8>>,
}

/// A signed integer object.
pub struct WafSigned {
    key: Option<Vec<u8>>,
    val: i64,
}

/// An unsigned integer object.
pub struct WafUnsigned {
    key: Option<Vec<u8>>,
    val: u64,
}

/// A string object; its bytes need not be valid UTF-8.
pub struct WafString {
    key: Option<Vec<u8>>,
    bytes: Vec<u8>,
}

/// An array object: a fixed-size sequence of [`WafObject`]s.
pub struct WafArray {
    key: Option<Vec<u8>>,
    items: Vec<WafObject>,
}

/// A map object: a fixed-size sequence of keyed [`WafObject`]s, in insertion order. Keys may
/// repeat.
pub struct WafMap {
    key: Option<Vec<u8>>,
    entries: Vec<Keyed<WafObject>>,
}

/// A boolean object.
pub struct WafBool {
    key: Option<Vec<u8>>,
    val: bool,
}

/// A floating point object, held as the IEEE-754 bit pattern of an `f64`.
pub struct WafFloat {
    key: Option<Vec<u8>>,
    bits: u64,
}

/// The null object.
pub struct WafNull {
    key: Option<Vec<u8>>,
}

/// A [`WafObject`] or [`TypedWafObject`] associated with a key.
///
/// The key is stored in the wrapped value itself (every object has a key slot, as map entries
/// do on the engine side); this wrapper is what gives access to it.
pub struct Keyed<T> {
    value: T,
}

enum Repr {
    Invalid(Keyed<WafInvalid>),
    Signed(Keyed<WafSigned>),
    Unsigned(Keyed<WafUnsigned>),
    String(Keyed<WafString>),
    Array(Keyed<WafArray>),
    Mapping(Keyed<WafMap>),
    Bool(Keyed<WafBool>),
    Float(Keyed<WafFloat>),
    Null(Keyed<WafNull>),
}

/// An arbitrary WAF object.
///
/// It is usually converted to a [`TypedWafObject`] by calling [`WafObject::as_type`].
pub struct WafObject {
    repr: Repr,
}

/// The bytes of a key slot; an empty slot holds no allocation.
pub open spec fn slot_bytes(slot: Option<Vec<u8>>) -> Seq<u8> {
    match slot {
        Some(k) => k@,
        None => Seq::empty(),
    }
}

/// Returns the bytes of a key slot.
fn slot_slice(slot: &Option<Vec<u8>>) -> (r: &[u8])
    ensures
        r@ == slot_bytes(*slot),
{
    match slot {
        Some(k) => k.as_slice(),
        None => &[],
    }
}

/// Builds a key slot holding the given bytes; an empty key takes no allocation.
fn key_slot(key: Vec<u8>) -> (r: Option<Vec<u8>>)
    ensures
        slot_bytes(r) == key@,
        key@.len() == 0 <==> r is None,
{
    if key.len() == 0 {
        None
    } else {
        Some(key)
    }
}

/// The content of an object.
pub closed spec fn object_value(o: WafObject) -> Value
    decreases o, 0nat,
{
    match o.repr {
        Repr::Invalid(_) => Value::Invalid,
        Repr::Signed(k) => Value::Signed(k.value.val),
        Repr::Unsigned(k) => Value::Unsigned(k.value.val),
        Repr::String(k) => Value::Str(k.value.bytes@),
        Repr::Array(k) => {
            proof {
                broadcast use vstd::std_specs::vec::axiom_vec_decreases_to_view;
                assert(decreases_to!(k.value.items => k.value.items@));
            }
            Value::List(items_value(k.value.items@))
        },
        Repr::Mapping(k) => {
            proof {
                broadcast use vstd::std_specs::vec::axiom_vec_decreases_to_view;
                assert(decreases_to!(k.value.entries => k.value.entries@));
            }
            Value::Dict(entries_value(k.value.entries@))
        },
        Repr::Bool(k) => Value::Bool(k.value.val),
        Repr::Float(k) => Value::Float(k.value.bits),
        Repr::Null(_) => Value::Null,
    }
}

/// The contents of a sequence of array elements.
pub closed spec fn items_value(items: Seq<WafObject>) -> Seq<Value>
    decreases items, 0nat,
{
    Seq::new(
        items.len(),
        |i: int| if 0 <= i < items.len() { object_value(items[i]) } else { Value::Invalid },
    )
}

/// The keys and contents of a sequence of map entries.
pub closed spec fn entries_value(entries: Seq<Keyed<WafObject>>) -> Seq<(Seq<u8>, Value)>
    decreases entries, 0nat,
{
    Seq::new(
        entries.len(),
        |i: int| if 0 <= i < entries.len() {
            (object_key(entries[i].value), object_value(entries[i].value))
        } else {
            (Seq::empty(), Value::Invalid)
        },
    )
}

/// The key carried by an object.
pub closed spec fn object_key(o: WafObject) -> Seq<u8> {
    match o.repr {
        Repr::Invalid(k) => slot_bytes(k.value.key),
        Repr::Signed(k) => slot_bytes(k.value.key),
        Repr::Unsigned(k) => slot_bytes(k.value.key),
        Repr::String(k) => slot_bytes(k.value.key),
        Repr::Array(k) => slot_bytes(k.value.key),
        Repr::Mapping(k) => slot_bytes(k.value.key),
        Repr::Bool(k) => slot_bytes(k.value.key),
        Repr::Float(k) => slot_bytes(k.value.key),
        Repr::Null(k) => slot_bytes(k.value.key),
    }
}

/// A borrowed view of the content of an object.
pub enum Content<'a> {
    Invalid,
    Signed(i64),
    Unsigned(u64),
    Str(&'a [u8]),
    Array(&'a [WafObject]),
    Dict(&'a [Keyed<WafObject>]),
    Bool(bool),
    Float(u64),
    Null,
}

/// The content a borrowed view denotes.
pub open spec fn content_value(c: Content<'_>) -> Value {
    match c {
        Content::Invalid => Value::Invalid,
        Content::Signed(x) => Value::Signed(x),
        Content::Unsigned(x) => Value::Unsigned(x),
        Content::Str(b) => Value::Str(b@),
        Content::Array(items) => Value::List(items_value(items@)),
        Content::Dict(entries) => Value::Dict(entries_value(entries@)),
        Content::Bool(x) => Value::Bool(x),
        Content::Float(x) => Value::Float(x),
        Content::Null => Value::Null,
    }
}

/// Access to the key slot and to the content of a [`WafObject`] or [`TypedWafObject`] value.
pub trait AsRawMutObject: Sized {
    /// The key carried by this value (empty when it carries none).
    spec fn key_spec(&self) -> Seq<u8>;

    /// The content of this value.
    spec fn value_spec(&self) -> Value;

    /// Returns the key slot of this value.
    fn raw_key(&self) -> (r: &[u8])
        ensures
            r@ == self.key_spec(),
    ;

    /// Returns a borrowed view of the content of this value.
    fn content(&self) -> (r: Content<'_>)
        ensures
            content_value(r) == self.value_spec(),
    ;

    /// Replaces the key slot of this value; the previous key is dropped.
    fn set_raw_key(&mut self, key: Vec<u8>)
        ensures
            final(self).key_spec() == key@,
            final(self).value_spec() == old(self).value_spec(),
    ;
}

/// Implemented by the type-safe views of a [`WafObject`], one for each [`WafObjectType`].
pub trait TypedWafObject: AsRawMutObject {
    /// The type discriminator of every value of this view.
    spec fn type_spec() -> WafObjectType;

    /// Returns the type discriminator of every value of this view.
    fn object_type() -> (r: WafObjectType)
        ensures
            r == Self::type_spec(),
    ;

    /// Every value of this view has the view's type.
    proof fn lemma_kind(&self)
        ensures
            self.value_spec().kind() == Self::type_spec(),
    ;

    /// Returns the object as this view when its type corresponds.
    fn view_of(obj: &WafObject) -> (r: Option<&Self>)
        ensures
            r is Some <==> obj.value_spec().kind() == Self::type_spec(),
            r is Some ==> r->0.value_spec() == obj.value_spec() && r->0.key_spec() == obj.key_spec(),
    ;

    /// Returns the object as a mutable view when its type corresponds.
    fn view_of_mut(obj: &mut WafObject) -> (r: Option<&mut Self>)
        ensures
            r is Some <==> old(obj).value_spec().kind() == Self::type_spec(),
            r is None ==> *final(obj) == *old(obj),
            r is Some ==> {
                &&& (*r.unwrap()).value_spec() == old(obj).value_spec()
                &&& (*r.unwrap()).key_spec() == old(obj).key_spec()
                &&& final(obj).value_spec() == (*final(r.unwrap())).value_spec()
                &&& final(obj).key_spec() == (*final(r.unwrap())).key_spec()
            },
    ;

    /// Returns the keyed object as this keyed view when its type corresponds.
    fn keyed_view_of(obj: &Keyed<WafObject>) -> (r: Option<&Keyed<Self>>)
        ensures
            r is Some <==> obj.value_spec().kind() == Self::type_spec(),
            r is Some ==> r->0.value_spec() == obj.value_spec() && r->0.key_spec() == obj.key_spec(),
    ;

    /// Returns the keyed object as a mutable keyed view when its type corresponds.
    fn keyed_view_of_mut(obj: &mut Keyed<WafObject>) -> (r: Option<&mut Keyed<Self>>)
        ensures
            r is Some <==> old(obj).value_spec().kind() == Self::type_spec(),
            r is None ==> *final(obj) == *old(obj),
            r is Some ==> {
                &&& (*r.unwrap()).value_spec() == old(obj).value_spec()
                &&& (*r.unwrap()).key_spec() == old(obj).key_spec()
                &&& final(obj).value_spec() == (*final(r.unwrap())).value_spec()
                &&& final(obj).key_spec() == (*final(r.unwrap())).key_spec()
            },
    ;

    /// The generic object holding this view.
    spec fn object_spec(self) -> WafObject;

    /// Moves this view into a generic object, keeping its key and content.
    fn into_object(self) -> (r: WafObject)
        ensures
            r == self.object_spec(),
            r.value_spec() == self.value_spec(),
            r.key_spec() == self.key_spec(),
    ;

    /// The view a generic object holds, when its type is this view's.
    spec fn view_spec(obj: WafObject) -> Option<Self>;

    /// A view moved into a generic object is the view that object holds.
    proof fn lemma_view_round_trip(self)
        ensures
            Self::view_spec(self.object_spec()) == Some(self),
    ;

    /// A generic object holds a view of this type exactly when its type is this view's, and
    /// that view has the object's key and content.
    proof fn lemma_view_spec(obj: WafObject)
        ensures
            Self::view_spec(obj) is Some <==> obj.value_spec().kind() == Self::type_spec(),
            Self::view_spec(obj) is Some ==> Self::view_spec(obj)->0.value_spec() == obj.value_spec()
                && Self::view_spec(obj)->0.key_spec() == obj.key_spec(),
    ;

    /// Moves a generic object into this view when its type corresponds, and hands it back
    /// unchanged otherwise.
    fn from_object(obj: WafObject) -> (r: Result<Self, WafObject>)
        ensures
            r == (match Self::view_spec(obj) {
                Some(v) => Ok(v),
                None => Err(obj),
            }),
            r is Ok <==> obj.value_spec().kind() == Self::type_spec(),
            r is Ok ==> r->Ok_0.value_spec() == obj.value_spec() && r->Ok_0.key_spec() == obj.key_spec(),
            r is Err ==> r->Err_0 == obj,
    ;
}

impl AsRawMutObject for WafObject {
    closed spec fn key_spec(&self) -> Seq<u8> {
        object_key(*self)
    }

    closed spec fn value_spec(&self) -> Value {
        object_value(*self)
    }

    fn raw_key(&self) -> (r: &[u8]) {
        match &self.repr {
            Repr::Invalid(k) => slot_slice(&k.value.key),
            Repr::Signed(k) => slot_slice(&k.value.key),
            Repr::Unsigned(k) => slot_slice(&k.value.key),
            Repr::String(k) => slot_slice(&k.value.key),
            Repr::Array(k) => slot_slice(&k.value.key),
            Repr::Mapping(k) => slot_slice(&k.value.key),
            Repr::Bool(k) => slot_slice(&k.value.key),
            Repr::Float(k) => slot_slice(&k.value.key),
            Repr::Null(k) => slot_slice(&k.value.key),
        }
    }

    fn content(&self) -> (r: Content<'_>) {
        match &self.repr {
            Repr::Invalid(k) => k.value.content(),
            Repr::Signed(k) => k.value.content(),
            Repr::Unsigned(k) => k.value.content(),
            Repr::String(k) => k.value.content(),
            Repr::Array(k) => k.value.content(),
            Repr::Mapping(k) => k.value.content(),
            Repr::Bool(k) => k.value.content(),
            Repr::Float(k) => k.value.content(),
            Repr::Null(k) => k.value.content(),
        }
    }

    fn set_raw_key(&mut self, key: Vec<u8>) {
        match &mut self.repr {
            Repr::Invalid(k) => k.value.key = key_slot(key),
            Repr::Signed(k) => k.value.key = key_slot(key),
            Repr::Unsigned(k) => k.value.key = key_slot(key),
            Repr::String(k) => k.value.key = key_slot(key),
            Repr::Array(k) => k.value.key = key_slot(key),
            Repr::Mapping(k) => k.value.key = key_slot(key),
            Repr::Bool(k) => k.value.key = key_slot(key),
            Repr::Float(k) => k.value.key = key_slot(key),
            Repr::Null(k) => k.value.key = key_slot(key),
        }
    }
}

impl<T: AsRawMutObject> AsRawMutObject for Keyed<T> {
    closed spec fn key_spec(&self) -> Seq<u8> {
        self.value.key_spec()
    }

    closed spec fn value_spec(&self) -> Value {
        self.value.value_spec()
    }

    fn raw_key(&self) -> (r: &[u8]) {
        self.value.raw_key()
    }

    fn content(&self) -> (r: Content<'_>) {
        self.value.content()
    }

    fn set_raw_key(&mut self, key: Vec<u8>) {
        self.value.set_raw_key(key);
    }
}

impl AsRawMutObject for WafInvalid {
    closed spec fn key_spec(&self) -> Seq<u8> {
        slot_bytes(self.key)
    }

    closed spec fn value_spec(&self) -> Value {
        Value::Invalid
    }

    fn raw_key(&self) -> (r: &[u8]) {
        slot_slice(&self.key)
    }

    fn content(&self) -> (r: Content<'_>) {
        let r = Content::Invalid;
        assert(content_value(r) == self.value_spec());
        r
    }

    fn set_raw_key(&mut self, key: Vec<u8>) {
        self.key = key_slot(key);
    }
}

impl TypedWafObject for WafInvalid {
    open spec fn type_spec() -> WafObjectType {
        WafObjectType::Invalid
    }

    fn object_type() -> (r: WafObjectType) {
        WafObjectType::Invalid
    }

    proof fn lemma_kind(&self) {
    }

    fn view_of(obj: &WafObject) -> (r: Option<&Self>) {
        match &obj.repr {
            Repr::Invalid(k) => Some(&k.value),
            _ => None,
        }
    }

    fn view_of_mut(obj: &mut WafObject) -> (r: Option<&mut Self>) {
        match &mut obj.repr {
            Repr::Invalid(k) => Some(&mut k.value),
            _ => None,
        }
    }

    fn keyed_view_of(obj: &Keyed<WafObject>) -> (r: Option<&Keyed<Self>>) {
        match &obj.value.repr {
            Repr::Invalid(k) => Some(k),
            _ => None,
        }
    }

    fn keyed_view_of_mut(obj: &mut Keyed<WafObject>) -> (r: Option<&mut Keyed<Self>>) {
        match &mut obj.value.repr {
            Repr::Invalid(k) => Some(k),
            _ => None,
        }
    }

    closed spec fn object_spec(self) -> WafObject {
        WafObject { repr: Repr::Invalid(Keyed { value: self }) }
    }

    fn into_object(self) -> (r: WafObject) {
        WafObject { repr: Repr::Invalid(Keyed { value: self }) }
    }

    closed spec fn view_spec(obj: WafObject) -> Option<Self> {
        match obj.repr {
            Repr::Invalid(k) => Some(k.value),
            _ => None,
        }
    }

    proof fn lemma_view_round_trip(self) {
    }

    proof fn lemma_view_spec(obj: WafObject) {
    }

    fn from_object(obj: WafObject) -> (r: Result<Self, WafObject>) {
        match obj.repr {
            Repr::Invalid(k) => Ok(k.value),
            _ => Err(obj),
        }
    }
}

impl AsRawMutObject for WafSigned {
    closed spec fn key_spec(&self) -> Seq<u8> {
        slot_bytes(self.key)
    }

    closed spec fn value_spec(&self) -> Value {
        Value::Signed(self.val)
    }

    fn raw_key(&self) -> (r: &[u8]) {
        slot_slice(&self.key)
    }

    fn content(&self) -> (r: Content<'_>) {
        let r = Content::Signed(self.val);
        assert(content_value(r) == self.value_spec());
        r
    }

    fn set_raw_key(&mut self, key: Vec<u8>) {
        self.key = key_slot(key);
    }
}

impl TypedWafObject for WafSigned {
    open spec fn type_spec() -> WafObjectType {
        WafObjectType::Signed
    }

    fn object_type() -> (r: WafObjectType) {
        WafObjectType::Signed
    }

    proof fn lemma_kind(&self) {
    }

    fn view_of(obj: &WafObject) -> (r: Option<&Self>) {
        match &obj.repr {
            Repr::Signed(k) => Some(&k.value),
            _ => None,
        }
    }

    fn view_of_mut(obj: &mut WafObject) -> (r: Option<&mut Self>) {
        match &mut obj.repr {
            Repr::Signed(k) => Some(&mut k.value),
            _ => None,
        }
    }

    fn keyed_view_of(obj: &Keyed<WafObject>) -> (r: Option<&Keyed<Self>>) {
        match &obj.value.repr {
            Repr::Signed(k) => Some(k),
            _ => None,
        }
    }

    fn keyed_view_of_mut(obj: &mut Keyed<WafObject>) -> (r: Option<&mut Keyed<Self>>) {
        match &mut obj.value.repr {
            Repr::Signed(k) => Some(k),
            _ => None,
        }
    }

    closed spec fn object_spec(self) -> WafObject {
        WafObject { repr: Repr::Signed(Keyed { value: self }) }
    }

    fn into_object(self) -> (r: WafObject) {
        WafObject { repr: Repr::Signed(Keyed { value: self }) }
    }

    closed spec fn view_spec(obj: WafObject) -> Option<Self> {
        match obj.repr {
            Repr::Signed(k) => Some(k.value),
            _ => None,
        }
    }

    proof fn lemma_view_round_trip(self) {
    }

    proof fn lemma_view_spec(obj: WafObject) {
    }

    fn from_object(obj: WafObject) -> (r: Result<Self, WafObject>) {
        match obj.repr {
            Repr::Signed(k) => Ok(k.value),
            _ => Err(obj),
        }
    }
}

impl AsRawMutObject for WafUnsigned {
    closed spec fn key_spec(&self) -> Seq<u8> {
        slot_bytes(self.key)
    }

    closed spec fn value_spec(&self) -> Value {
        Value::Unsigned(self.val)
    }

    fn raw_key(&self) -> (r: &[u8]) {
        slot_slice(&self.key)
    }

    fn content(&self) -> (r: Content<'_>) {
        let r = Content::Unsigned(self.val);
        assert(content_value(r) == self.value_spec());
        r
    }

    fn set_raw_key(&mut self, key: Vec<u8>) {
        self.key = key_slot(key);
    }
}

impl TypedWafObject for WafUnsigned {
    open spec fn type_spec() -> WafObjectType {
        WafObjectType::Unsigned
    }

    fn object_type() -> (r: WafObjectType) {
        WafObjectType::Unsigned
    }

    proof fn lemma_kind(&self) {
    }

    fn view_of(obj: &WafObject) -> (r: Option<&Self>) {
        match &obj.repr {
            Repr::Unsigned(k) => Some(&k.value),
            _ => None,
        }
    }

    fn view_of_mut(obj: &mut WafObject) -> (r: Option<&mut Self>) {
        match &mut obj.repr {
            Repr::Unsigned(k) => Some(&mut k.value),
            _ => None,
        }
    }

    fn keyed_view_of(obj: &Keyed<WafObject>) -> (r: Option<&Keyed<Self>>) {
        match &obj.value.repr {
            Repr::Unsigned(k) => Some(k),
            _ => None,
        }
    }

    fn keyed_view_of_mut(obj: &mut Keyed<WafObject>) -> (r: Option<&mut Keyed<Self>>) {
        match &mut obj.value.repr {
            Repr::Unsigned(k) => Some(k),
            _ => None,
        }
    }

    closed spec fn object_spec(self) -> WafObject {
        WafObject { repr: Repr::Unsigned(Keyed { value: self }) }
    }

    fn into_object(self) -> (r: WafObject) {
        WafObject { repr: Repr::Unsigned(Keyed { value: self }) }
    }

    closed spec fn view_spec(obj: WafObject) -> Option<Self> {
        match obj.repr {
            Repr::Unsigned(k) => Some(k.value),
            _ => None,
        }
    }

    proof fn lemma_view_round_trip(self) {
    }

    proof fn lemma_view_spec(obj: WafObject) {
    }

    fn from_object(obj: WafObject) -> (r: Result<Self, WafObject>) {
        match obj.repr {
            Repr::Unsigned(k) => Ok(k.value),
            _ => Err(obj),
        }
    }
}

impl AsRawMutObject for WafString {
    closed spec fn key_spec(&self) -> Seq<u8> {
        slot_bytes(self.key)
    }

    closed spec fn value_spec(&self) -> Value {
        Value::Str(self.bytes@)
    }

    fn raw_key(&self) -> (r: &[u8]) {
        slot_slice(&self.key)
    }

    fn content(&self) -> (r: Content<'_>) {
        let r = Content::Str(self.bytes.as_slice());
        assert(content_value(r) == self.value_spec());
        r
    }

    fn set_raw_key(&mut self, key: Vec<u8>) {
        self.key = key_slot(key);
    }
}

impl TypedWafObject for WafString {
    open spec fn type_spec() -> WafObjectType {
        WafObjectType::String
    }

    fn object_type() -> (r: WafObjectType) {
        WafObjectType::String
    }

    proof fn lemma_kind(&self) {
    }

    fn view_of(obj: &WafObject) -> (r: Option<&Self>) {
        match &obj.repr {
            Repr::String(k) => Some(&k.value),
            _ => None,
        }
    }

    fn view_of_mut(obj: &mut WafObject) -> (r: Option<&mut Self>) {
        match &mut obj.repr {
            Repr::String(k) => Some(&mut k.value),
            _ => None,
        }
    }

    fn keyed_view_of(obj: &Keyed<WafObject>) -> (r: Option<&Keyed<Self>>) {
        match &obj.value.repr {
            Repr::String(k) => Some(k),
            _ => None,
        }
    }

    fn keyed_view_of_mut(obj: &mut Keyed<WafObject>) -> (r: Option<&mut Keyed<Self>>) {
        match &mut obj.value.repr {
            Repr::String(k) => Some(k),
            _ => None,
        }
    }

    closed spec fn object_spec(self) -> WafObject {
        WafObject { repr: Repr::String(Keyed { value: self }) }
    }

    fn into_object(self) -> (r: WafObject) {
        WafObject { repr: Repr::String(Keyed { value: self }) }
    }

    closed spec fn view_spec(obj: WafObject) -> Option<Self> {
        match obj.repr {
            Repr::String(k) => Some(k.value),
            _ => None,
        }
    }

    proof fn lemma_view_round_trip(self) {
    }

    proof fn lemma_view_spec(obj: WafObject) {
    }

    fn from_object(obj: WafObject) -> (r: Result<Self, WafObject>) {
        match obj.repr {
            Repr::String(k) => Ok(k.value),
            _ => Err(obj),
        }
    }
}

impl AsRawMutObject for WafArray {
    closed spec fn key_spec(&self) -> Seq<u8> {
        slot_bytes(self.key)
    }

    closed spec fn value_spec(&self) -> Value {
        Value::List(items_value(self.items@))
    }

    fn raw_key(&self) -> (r: &[u8]) {
        slot_slice(&self.key)
    }

    fn content(&self) -> (r: Content<'_>) {
        let r = Content::Array(self.items.as_slice());
        assert(content_value(r) == self.value_spec());
        r
    }

    fn set_raw_key(&mut self, key: Vec<u8>) {
        self.key = key_slot(key);
    }
}

impl TypedWafObject for WafArray {
    open spec fn type_spec() -> WafObjectType {
        WafObjectType::Array
    }

    fn object_type() -> (r: WafObjectType) {
        WafObjectType::Array
    }

    proof fn lemma_kind(&self) {
    }

    fn view_of(obj: &WafObject) -> (r: Option<&Self>) {
        match &obj.repr {
            Repr::Array(k) => Some(&k.value),
            _ => None,
        }
    }

    fn view_of_mut(obj: &mut WafObject) -> (r: Option<&mut Self>) {
        match &mut obj.repr {
            Repr::Array(k) => Some(&mut k.value),
            _ => None,
        }
    }

    fn keyed_view_of(obj: &Keyed<WafObject>) -> (r: Option<&Keyed<Self>>) {
        match &obj.value.repr {
            Repr::Array(k) => Some(k),
            _ => None,
        }
    }

    fn keyed_view_of_mut(obj: &mut Keyed<WafObject>) -> (r: Option<&mut Keyed<Self>>) {
        match &mut obj.value.repr {
            Repr::Array(k) => Some(k),
            _ => None,
        }
    }

    closed spec fn object_spec(self) -> WafObject {
        WafObject { repr: Repr::Array(Keyed { value: self }) }
    }

    fn into_object(self) -> (r: WafObject) {
        WafObject { repr: Repr::Array(Keyed { value: self }) }
    }

    closed spec fn view_spec(obj: WafObject) -> Option<Self> {
        match obj.repr {
            Repr::Array(k) => Some(k.value),
            _ => None,
        }
    }

    proof fn lemma_view_round_trip(self) {
    }

    proof fn lemma_view_spec(obj: WafObject) {
    }

    fn from_object(obj: WafObject) -> (r: Result<Self, WafObject>) {
        match obj.repr {
            Repr::Array(k) => Ok(k.value),
            _ => Err(obj),
        }
    }
}

impl AsRawMutObject for WafMap {
    closed spec fn key_spec(&self) -> Seq<u8> {
        slot_bytes(self.key)
    }

    closed spec fn value_spec(&self) -> Value {
        Value::Dict(entries_value(self.entries@))
    }

    fn raw_key(&self) -> (r: &[u8]) {
        slot_slice(&self.key)
    }

    fn content(&self) -> (r: Content<'_>) {
        let r = Content::Dict(self.entries.as_slice());
        assert(content_value(r) == self.value_spec());
        r
    }

    fn set_raw_key(&mut self, key: Vec<u8>) {
        self.key = key_slot(key);
    }
}

impl TypedWafObject for WafMap {
    open spec fn type_spec() -> WafObjectType {
        WafObjectType::Mapping
    }

    fn object_type() -> (r: WafObjectType) {
        WafObjectType::Mapping
    }

    proof fn lemma_kind(&self) {
    }

    fn view_of(obj: &WafObject) -> (r: Option<&Self>) {
        match &obj.repr {
            Repr::Mapping(k) => Some(&k.value),
            _ => None,
        }
    }

    fn view_of_mut(obj: &mut WafObject) -> (r: Option<&mut Self>) {
        match &mut obj.repr {
            Repr::Mapping(k) => Some(&mut k.value),
            _ => None,
        }
    }

    fn keyed_view_of(obj: &Keyed<WafObject>) -> (r: Option<&Keyed<Self>>) {
        match &obj.value.repr {
            Repr::Mapping(k) => Some(k),
            _ => None,
        }
    }

    fn keyed_view_of_mut(obj: &mut Keyed<WafObject>) -> (r: Option<&mut Keyed<Self>>) {
        match &mut obj.value.repr {
            Repr::Mapping(k) => Some(k),
            _ => None,
        }
    }

    closed spec fn object_spec(self) -> WafObject {
        WafObject { repr: Repr::Mapping(Keyed { value: self }) }
    }

    fn into_object(self) -> (r: WafObject) {
        WafObject { repr: Repr::Mapping(Keyed { value: self }) }
    }

    closed spec fn view_spec(obj: WafObject) -> Option<Self> {
        match obj.repr {
            Repr::Mapping(k) => Some(k.value),
            _ => None,
        }
    }

    proof fn lemma_view_round_trip(self) {
    }

    proof fn lemma_view_spec(obj: WafObject) {
    }

    fn from_object(obj: WafObject) -> (r: Result<Self, WafObject>) {
        match obj.repr {
            Repr::Mapping(k) => Ok(k.value),
            _ => Err(obj),
        }
    }
}

impl AsRawMutObject for WafBool {
    closed spec fn key_spec(&self) -> Seq<u8> {
        slot_bytes(self.key)
    }

    closed spec fn value_spec(&self) -> Value {
        Value::Bool(self.val)
    }

    fn raw_key(&self) -> (r: &[u8]) {
        slot_slice(&self.key)
    }

    fn content(&self) -> (r: Content<'_>) {
        let r = Content::Bool(self.val);
        assert(content_value(r) == self.value_spec());
        r
    }

    fn set_raw_key(&mut self, key: Vec<u8>) {
        self.key = key_slot(key);
    }
}

impl TypedWafObject for WafBool {
    open spec fn type_spec() -> WafObjectType {
        WafObjectType::Bool
    }

    fn object_type() -> (r: WafObjectType) {
        WafObjectType::Bool
    }

    proof fn lemma_kind(&self) {
    }

    fn view_of(obj: &WafObject) -> (r: Option<&Self>) {
        match &obj.repr {
            Repr::Bool(k) => Some(&k.value),
            _ => None,
        }
    }

    fn view_of_mut(obj: &mut WafObject) -> (r: Option<&mut Self>) {
        match &mut obj.repr {
            Repr::Bool(k) => Some(&mut k.value),
            _ => None,
        }
    }

    fn keyed_view_of(obj: &Keyed<WafObject>) -> (r: Option<&Keyed<Self>>) {
        match &obj.value.repr {
            Repr::Bool(k) => Some(k),
            _ => None,
        }
    }

    fn keyed_view_of_mut(obj: &mut Keyed<WafObject>) -> (r: Option<&mut Keyed<Self>>) {
        match &mut obj.value.repr {
            Repr::Bool(k) => Some(k),
            _ => None,
        }
    }

    closed spec fn object_spec(self) -> WafObject {
        WafObject { repr: Repr::Bool(Keyed { value: self }) }
    }

    fn into_object(self) -> (r: WafObject) {
        WafObject { repr: Repr::Bool(Keyed { value: self }) }
    }

    closed spec fn view_spec(obj: WafObject) -> Option<Self> {
        match obj.repr {
            Repr::Bool(k) => Some(k.value),
            _ => None,
        }
    }

    proof fn lemma_view_round_trip(self) {
    }

    proof fn lemma_view_spec(obj: WafObject) {
    }

    fn from_object(obj: WafObject) -> (r: Result<Self, WafObject>) {
        match obj.repr {
            Repr::Bool(k) => Ok(k.value),
            _ => Err(obj),
        }
    }
}

impl AsRawMutObject for WafFloat {
    closed spec fn key_spec(&self) -> Seq<u8> {
        slot_bytes(self.key)
    }

    closed spec fn value_spec(&self) -> Value {
        Value::Float(self.bits)
    }

    fn raw_key(&self) -> (r: &[u8]) {
        slot_slice(&self.key)
    }

    fn content(&self) -> (r: Content<'_>) {
        let r = Content::Float(self.bits);
        assert(content_value(r) == self.value_spec());
        r
    }

    fn set_raw_key(&mut self, key: Vec<u8>) {
        self.key = key_slot(key);
    }
}

impl TypedWafObject for WafFloat {
    open spec fn type_spec() -> WafObjectType {
        WafObjectType::Float
    }

    fn object_type() -> (r: WafObjectType) {
        WafObjectType::Float
    }

    proof fn lemma_kind(&self) {
    }

    fn view_of(obj: &WafObject) -> (r: Option<&Self>) {
        match &obj.repr {
            Repr::Float(k) => Some(&k.value),
            _ => None,
        }
    }

    fn view_of_mut(obj: &mut WafObject) -> (r: Option<&mut Self>) {
        match &mut obj.repr {
            Repr::Float(k) => Some(&mut k.value),
            _ => None,
        }
    }

    fn keyed_view_of(obj: &Keyed<WafObject>) -> (r: Option<&Keyed<Self>>) {
        match &obj.value.repr {
            Repr::Float(k) => Some(k),
            _ => None,
        }
    }

    fn keyed_view_of_mut(obj: &mut Keyed<WafObject>) -> (r: Option<&mut Keyed<Self>>) {
        match &mut obj.value.repr {
            Repr::Float(k) => Some(k),
            _ => None,
        }
    }

    closed spec fn object_spec(self) -> WafObject {
        WafObject { repr: Repr::Float(Keyed { value: self }) }
    }

    fn into_object(self) -> (r: WafObject) {
        WafObject { repr: Repr::Float(Keyed { value: self }) }
    }

    closed spec fn view_spec(obj: WafObject) -> Option<Self> {
        match obj.repr {
            Repr::Float(k) => Some(k.value),
            _ => None,
        }
    }

    proof fn lemma_view_round_trip(self) {
    }

    proof fn lemma_view_spec(obj: WafObject) {
    }

    fn from_object(obj: WafObject) -> (r: Result<Self, WafObject>) {
        match obj.repr {
            Repr::Float(k) => Ok(k.value),
            _ => Err(obj),
        }
    }
}

impl AsRawMutObject for WafNull {
    closed spec fn key_spec(&self) -> Seq<u8> {
        slot_bytes(self.key)
    }

    closed spec fn value_spec(&self) -> Value {
        Value::Null
    }

    fn raw_key(&self) -> (r: &[u8]) {
        slot_slice(&self.key)
    }

    fn content(&self) -> (r: Content<'_>) {
        let r = Content::Null;
        assert(content_value(r) == self.value_spec());
        r
    }

    fn set_raw_key(&mut self, key: Vec<u8>) {
        self.key = key_slot(key);
    }
}

impl TypedWafObject for WafNull {
    open spec fn type_spec() -> WafObjectType {
        WafObjectType::Null
    }

    fn object_type() -> (r: WafObjectType) {
        WafObjectType::Null
    }

    proof fn lemma_kind(&self) {
    }

    fn view_of(obj: &WafObject) -> (r: Option<&Self>) {
        match &obj.repr {
            Repr::Null(k) => Some(&k.value),
            _ => None,
        }
    }

    fn view_of_mut(obj: &mut WafObject) -> (r: Option<&mut Self>) {
        match &mut obj.repr {
            Repr::Null(k) => Some(&mut k.value),
            _ => None,
        }
    }

    fn keyed_view_of(obj: &Keyed<WafObject>) -> (r: Option<&Keyed<Self>>) {
        match &obj.value.repr {
            Repr::Null(k) => Some(k),
            _ => None,
        }
    }

    fn keyed_view_of_mut(obj: &mut Keyed<WafObject>) -> (r: Option<&mut Keyed<Self>>) {
        match &mut obj.value.repr {
            Repr::Null(k) => Some(k),
            _ => None,
        }
    }

    closed spec fn object_spec(self) -> WafObject {
        WafObject { repr: Repr::Null(Keyed { value: self }) }
    }

    fn into_object(self) -> (r: WafObject) {
        WafObject { repr: Repr::Null(Keyed { value: self }) }
    }

    closed spec fn view_spec(obj: WafObject) -> Option<Self> {
        match obj.repr {
            Repr::Null(k) => Some(k.value),
            _ => None,
        }
    }

    proof fn lemma_view_round_trip(self) {
    }

    proof fn lemma_view_spec(obj: WafObject) {
    }

    fn from_object(obj: WafObject) -> (r: Result<Self, WafObject>) {
        match obj.repr {
            Repr::Null(k) => Ok(k.value),
            _ => Err(obj),
        }
    }
}

/// Byte-wise equality of two byte strings.
fn bytes_equal(a: &[u8], b: &[u8]) -> (r: bool)
    ensures
        r == (a@ == b@),
{
    if a.len() != b.len() {
        return false;
    }
    let mut i: usize = 0;
    while i < a.len()
        invariant
            a@.len() == b@.len(),
            0 <= i <= a@.len(),
            forall|j: int| 0 <= j < i ==> a@[j] == b@[j],
        decreases a@.len() - i,
    {
        if a[i] != b[i] {
            return false;
        }
        i = i + 1;
    }
    assert(a@ =~= b@);
    true
}

/// The signed value an object converts to: a signed integer, or an unsigned one that fits.
pub open spec fn signed_of(v: Value) -> Option<i64> {
    match v {
        Value::Signed(x) => Some(x),
        Value::Unsigned(x) => if x <= i64::MAX as u64 {
            Some(x as i64)
        } else {
            None
        },
        _ => None,
    }
}

impl WafObject {
    /// Returns the [`WafObjectType`] of the underlying value.
    pub fn get_type(&self) -> (r: WafObjectType)
        ensures
            r == self.value_spec().kind(),
    {
        match &self.repr {
            Repr::Invalid(_) => WafObjectType::Invalid,
            Repr::Signed(_) => WafObjectType::Signed,
            Repr::Unsigned(_) => WafObjectType::Unsigned,
            Repr::String(_) => WafObjectType::String,
            Repr::Array(_) => WafObjectType::Array,
            Repr::Mapping(_) => WafObjectType::Mapping,
            Repr::Bool(_) => WafObjectType::Bool,
            Repr::Float(_) => WafObjectType::Float,
            Repr::Null(_) => WafObjectType::Null,
        }
    }

    /// Returns a reference to this value as a `T` if its type corresponds.
    pub fn as_type<T: TypedWafObject>(&self) -> (r: Option<&T>)
        ensures
            r is Some <==> self.value_spec().kind() == T::type_spec(),
            r is Some ==> r->0.value_spec() == self.value_spec() && r->0.key_spec() == self.key_spec(),
    {
        T::view_of(self)
    }

    /// Returns a mutable reference to this value as a `T` if its type corresponds.
    pub fn as_type_mut<T: TypedWafObject>(&mut self) -> (r: Option<&mut T>)
        ensures
            r is Some <==> old(self).value_spec().kind() == T::type_spec(),
            r is None ==> *final(self) == *old(self),
            r is Some ==> {
                &&& (*r.unwrap()).value_spec() == old(self).value_spec()
                &&& (*r.unwrap()).key_spec() == old(self).key_spec()
                &&& final(self).value_spec() == (*final(r.unwrap())).value_spec()
                &&& final(self).key_spec() == (*final(r.unwrap())).key_spec()
            },
    {
        T::view_of_mut(self)
    }

    /// Returns true if this [`WafObject`] is not [`WafObjectType::Invalid`].
    pub fn is_valid(&self) -> (r: bool)
        ensures
            r == (self.value_spec().kind() != WafObjectType::Invalid),
    {
        match &self.repr {
            Repr::Invalid(_) => false,
            _ => true,
        }
    }

    /// Returns the value of this object if it is [`WafObjectType::Unsigned`].
    pub fn to_u64(&self) -> (r: Option<u64>)
        ensures
            r == (match self.value_spec() {
                Value::Unsigned(x) => Some(x),
                _ => None::<u64>,
            }),
    {
        match &self.repr {
            Repr::Unsigned(k) => Some(k.value.val),
            _ => None,
        }
    }

    /// Returns the value of this object as an [`i64`] if it is [`WafObjectType::Signed`], or
    /// [`WafObjectType::Unsigned`] with a value that an [`i64`] can represent.
    pub fn to_i64(&self) -> (r: Option<i64>)
        ensures
            r == signed_of(self.value_spec()),
    {
        match &self.repr {
            Repr::Signed(k) => Some(k.value.val),
            Repr::Unsigned(k) => if k.value.val <= i64::MAX as u64 {
                Some(k.value.val as i64)
            } else {
                None
            },
            _ => None,
        }
    }

    /// Returns the IEEE-754 bit pattern of this object if it is [`WafObjectType::Float`].
    pub fn to_f64_bits(&self) -> (r: Option<u64>)
        ensures
            r == (match self.value_spec() {
                Value::Float(x) => Some(x),
                _ => None::<u64>,
            }),
    {
        match &self.repr {
            Repr::Float(k) => Some(k.value.bits),
            _ => None,
        }
    }

    /// Returns the value of this object if it is [`WafObjectType::Bool`].
    pub fn to_bool(&self) -> (r: Option<bool>)
        ensures
            r == (match self.value_spec() {
                Value::Bool(x) => Some(x),
                _ => None::<bool>,
            }),
    {
        match &self.repr {
            Repr::Bool(k) => Some(k.value.val),
            _ => None,
        }
    }

    /// Returns the value of this object as a string if it is [`WafObjectType::String`] and holds
    /// valid UTF-8.
    pub fn to_str(&self) -> (r: Option<&str>)
        ensures
            r is Some <==> (self.value_spec() matches Value::Str(b) && valid_utf8(b)),
            r is Some ==> self.value_spec() == Value::Str(r->0.spec_bytes()),
    {
        match &self.repr {
            Repr::String(k) => match utf8_str(k.value.bytes.as_slice()) {
                Ok(text) => Some(text),
                Err(_) => None,
            },
            _ => None,
        }
    }
}

impl WafSigned {
    /// Creates a new [`WafSigned`] with the provided value.
    pub fn new(val: i64) -> (r: Self)
        ensures
            r.value_spec() == Value::Signed(val),
            r.key_spec() == Seq::<u8>::empty(),
    {
        WafSigned { key: None, val }
    }

    /// Returns the value of this [`WafSigned`].
    pub fn value(&self) -> (r: i64)
        ensures
            self.value_spec() == Value::Signed(r),
    {
        self.val
    }

    /// Returns true: a [`WafSigned`] always holds a [`WafObjectType::Signed`] value.
    pub fn is_valid(&self) -> (r: bool)
        ensures
            r == (self.value_spec().kind() == WafObjectType::Signed),
    {
        true
    }
}

impl Default for WafSigned {
    fn default() -> (r: Self)
        ensures
            r.key_spec() == Seq::<u8>::empty(),
            r.value_spec() == Value::Signed(0),
    {
        WafSigned { key: None, val: 0 }
    }
}

impl WafUnsigned {
    /// Creates a new [`WafUnsigned`] with the provided value.
    pub fn new(val: u64) -> (r: Self)
        ensures
            r.value_spec() == Value::Unsigned(val),
            r.key_spec() == Seq::<u8>::empty(),
    {
        WafUnsigned { key: None, val }
    }

    /// Returns the value of this [`WafUnsigned`].
    pub fn value(&self) -> (r: u64)
        ensures
            self.value_spec() == Value::Unsigned(r),
    {
        self.val
    }

    /// Returns true: a [`WafUnsigned`] always holds a [`WafObjectType::Unsigned`] value.
    pub fn is_valid(&self) -> (r: bool)
        ensures
            r == (self.value_spec().kind() == WafObjectType::Unsigned),
    {
        true
    }
}

impl Default for WafUnsigned {
    fn default() -> (r: Self)
        ensures
            r.key_spec() == Seq::<u8>::empty(),
            r.value_spec() == Value::Unsigned(0),
    {
        WafUnsigned { key: None, val: 0 }
    }
}

impl WafBool {
    /// Creates a new [`WafBool`] with the provided value.
    pub fn new(val: bool) -> (r: Self)
        ensures
            r.value_spec() == Value::Bool(val),
            r.key_spec() == Seq::<u8>::empty(),
    {
        WafBool { key: None, val }
    }

    /// Returns the value of this [`WafBool`].
    pub fn value(&self) -> (r: bool)
        ensures
            self.value_spec() == Value::Bool(r),
    {
        self.val
    }

    /// Returns true: a [`WafBool`] always holds a [`WafObjectType::Bool`] value.
    pub fn is_valid(&self) -> (r: bool)
        ensures
            r == (self.value_spec().kind() == WafObjectType::Bool),
    {
        true
    }
}

impl Default for WafBool {
    fn default() -> (r: Self)
        ensures
            r.key_spec() == Seq::<u8>::empty(),
            r.value_spec() == Value::Bool(false),
    {
        WafBool { key: None, val: false }
    }
}

impl WafFloat {
    /// Creates a new [`WafFloat`] with the provided IEEE-754 bit pattern.
    pub fn new(bits: u64) -> (r: Self)
        ensures
            r.value_spec() == Value::Float(bits),
            r.key_spec() == Seq::<u8>::empty(),
    {
        WafFloat { key: None, bits }
    }

    /// Returns the IEEE-754 bit pattern of this [`WafFloat`].
    pub fn value(&self) -> (r: u64)
        ensures
            self.value_spec() == Value::Float(r),
    {
        self.bits
    }

    /// Returns true: a [`WafFloat`] always holds a [`WafObjectType::Float`] value.
    pub fn is_valid(&self) -> (r: bool)
        ensures
            r == (self.value_spec().kind() == WafObjectType::Float),
    {
        true
    }
}

impl Default for WafFloat {
    fn default() -> (r: Self)
        ensures
            r.key_spec() == Seq::<u8>::empty(),
            r.value_spec() == Value::Float(0),
    {
        WafFloat { key: None, bits: 0 }
    }
}

impl WafInvalid {
    /// Creates a new [`WafInvalid`].
    pub fn new() -> (r: Self)
        ensures
            r.value_spec() == Value::Invalid,
            r.key_spec() == Seq::<u8>::empty(),
    {
        WafInvalid { key: None }
    }

    /// Returns true if this value is indeed [`WafObjectType::Invalid`], which it always is.
    pub fn is_valid(&self) -> (r: bool)
        ensures
            r == (self.value_spec().kind() == WafObjectType::Invalid),
    {
        true
    }
}

impl Default for WafInvalid {
    fn default() -> (r: Self)
        ensures
            r.value_spec() == Value::Invalid,
            r.key_spec() == Seq::<u8>::empty(),
    {
        WafInvalid { key: None }
    }
}

impl WafNull {
    /// Creates a new [`WafNull`].
    pub fn new() -> (r: Self)
        ensures
            r.value_spec() == Value::Null,
            r.key_spec() == Seq::<u8>::empty(),
    {
        WafNull { key: None }
    }

    /// Returns true if this value is indeed [`WafObjectType::Null`], which it always is.
    pub fn is_valid(&self) -> (r: bool)
        ensures
            r == (self.value_spec().kind() == WafObjectType::Null),
    {
        true
    }
}

impl Default for WafNull {
    fn default() -> (r: Self)
        ensures
            r.value_spec() == Value::Null,
            r.key_spec() == Seq::<u8>::empty(),
    {
        WafNull { key: None }
    }
}

impl WafString {
    /// Creates a new [`WafString`] holding a copy of the provided bytes.
    pub fn new(val: &[u8]) -> (r: Self)
        ensures
            r.value_spec() == Value::Str(val@),
            r.key_spec() == Seq::<u8>::empty(),
    {
        WafString { key: None, bytes: vstd::slice::slice_to_vec(val) }
    }

    /// Creates a new [`WafString`] holding a copy of the provided text.
    pub fn from_text(val: &str) -> (r: Self)
        ensures
            r.value_spec() == Value::Str(val.spec_bytes()),
            r.key_spec() == Seq::<u8>::empty(),
    {
        WafString::new(val.as_bytes())
    }

    /// Returns the length of this [`WafString`], in bytes.
    pub fn len(&self) -> (r: usize)
        ensures
            self.value_spec() == Value::Str(self.value_spec()->Str_0),
            r == self.value_spec()->Str_0.len(),
    {
        self.bytes.len()
    }

    /// Returns true if this [`WafString`] is empty.
    pub fn is_empty(&self) -> (r: bool)
        ensures
            r == (self.value_spec()->Str_0.len() == 0),
    {
        self.bytes.len() == 0
    }

    /// Returns the bytes of this [`WafString`].
    pub fn bytes(&self) -> (r: &[u8])
        ensures
            self.value_spec() == Value::Str(r@),
    {
        self.bytes.as_slice()
    }

    /// Returns the content of this [`WafString`] as text.
    ///
    /// # Errors
    /// Returns an error if the bytes are not valid UTF-8.
    pub fn as_str(&self) -> (r: Result<&str, core::str::Utf8Error>)
        ensures
            r is Ok <==> valid_utf8(self.value_spec()->Str_0),
            r is Ok ==> self.value_spec() == Value::Str(r->Ok_0.spec_bytes()),
    {
        utf8_str(self.bytes.as_slice())
    }

    /// Returns true: a [`WafString`] always holds a [`WafObjectType::String`] value.
    pub fn is_valid(&self) -> (r: bool)
        ensures
            r == (self.value_spec().kind() == WafObjectType::String),
    {
        true
    }
}

impl Default for WafString {
    fn default() -> (r: Self)
        ensures
            r.value_spec() == Value::Str(Seq::empty()),
            r.key_spec() == Seq::<u8>::empty(),
    {
        WafString { key: None, bytes: Vec::new() }
    }
}

/// The content of a container of `n` freshly created slots.
pub open spec fn invalid_slots(n: nat) -> Seq<Value> {
    Seq::new(n, |i: int| Value::Invalid)
}

/// The content of a map of `n` freshly created entries.
pub open spec fn invalid_entries(n: nat) -> Seq<(Seq<u8>, Value)> {
    Seq::new(n, |i: int| (Seq::<u8>::empty(), Value::Invalid))
}

proof fn lemma_items_value_index(items: Seq<WafObject>, i: int)
    requires
        0 <= i < items.len(),
    ensures
        items_value(items).len() == items.len(),
        items_value(items)[i] == items[i].value_spec(),
{
}

proof fn lemma_entries_value_index(entries: Seq<Keyed<WafObject>>, i: int)
    requires
        0 <= i < entries.len(),
    ensures
        entries_value(entries).len() == entries.len(),
        entries_value(entries)[i] == (entries[i].key_spec(), entries[i].value_spec()),
{
}

proof fn lemma_items_value_update(items: Seq<WafObject>, i: int, x: WafObject)
    requires
        0 <= i < items.len(),
    ensures
        items_value(items.update(i, x)) == items_value(items).update(i, x.value_spec()),
{
    assert(items_value(items.update(i, x)) =~= items_value(items).update(i, x.value_spec()));
}

proof fn lemma_entries_value_update(entries: Seq<Keyed<WafObject>>, i: int, x: Keyed<WafObject>)
    requires
        0 <= i < entries.len(),
    ensures
        entries_value(entries.update(i, x)) == entries_value(entries).update(
            i,
            (x.key_spec(), x.value_spec()),
        ),
{
    assert(entries_value(entries.update(i, x)) =~= entries_value(entries).update(
        i,
        (x.key_spec(), x.value_spec()),
    ));
}

impl WafArray {
    /// Creates a new [`WafArray`] with the provided size, every slot holding an invalid
    /// [`WafObject`].
    pub fn new(nb_entries: u64) -> (r: Self)
        requires
            nb_entries <= usize::MAX,
        ensures
            r.value_spec() == Value::List(invalid_slots(nb_entries as nat)),
            r.key_spec() == Seq::<u8>::empty(),
    {
        let size = nb_entries as usize;
        let mut items: Vec<WafObject> = Vec::new();
        let mut i: usize = 0;
        while i < size
            invariant
                0 <= i <= size,
                items@.len() == i,
                forall|j: int| 0 <= j < i ==> (#[trigger] items@[j]).value_spec() == Value::Invalid,
            decreases size - i,
        {
            items.push(WafObject::default());
            i = i + 1;
        }
        let r = WafArray { key: None, items };
        assert(items_value(r.items@) =~= invalid_slots(nb_entries as nat));
        r
    }

    /// Returns the length of this [`WafArray`].
    pub fn len(&self) -> (r: usize)
        ensures
            self.value_spec() == Value::List(self.value_spec()->List_0),
            r == self.value_spec()->List_0.len(),
    {
        self.items.len()
    }

    /// Returns true if this [`WafArray`] is empty.
    pub fn is_empty(&self) -> (r: bool)
        ensures
            r == (self.value_spec()->List_0.len() == 0),
    {
        self.items.len() == 0
    }

    /// Returns a reference to the element at the provided index.
    pub fn at(&self, index: usize) -> (r: &WafObject)
        requires
            index < self.value_spec()->List_0.len(),
        ensures
            r.value_spec() == self.value_spec()->List_0[index as int],
    {
        proof {
            lemma_items_value_index(self.items@, index as int);
        }
        &self.items[index]
    }

    /// Returns a mutable reference to the element at the provided index.
    pub fn at_mut(&mut self, index: usize) -> (r: &mut WafObject)
        requires
            index < old(self).value_spec()->List_0.len(),
        ensures
            (*r).value_spec() == old(self).value_spec()->List_0[index as int],
            final(self).value_spec() == Value::List(
                old(self).value_spec()->List_0.update(index as int, (*final(r)).value_spec()),
            ),
            final(self).key_spec() == old(self).key_spec(),
    {
        proof {
            lemma_items_value_index(self.items@, index as int);
            assert forall|x: WafObject| #[trigger] items_value(self.items@.update(index as int, x))
                == items_value(self.items@).update(index as int, x.value_spec()) by {
                lemma_items_value_update(self.items@, index as int, x);
            }
        }
        &mut self.items[index]
    }

    /// Returns an iterator over the elements of this [`WafArray`].
    pub fn iter(&self) -> (r: std::slice::Iter<'_, WafObject>)
        ensures
            items_value(vstd::std_specs::slice::into_iter_elts(r)) == self.value_spec()->List_0,
    {
        let r = self.items.as_slice().iter();
        proof {
            broadcast use vstd::std_specs::slice::axiom_spec_slice_iter;
            assert(vstd::std_specs::slice::into_iter_elts(r) =~= self.items@);
        }
        r
    }

    /// Returns the elements of this [`WafArray`] for in-place modification.
    pub fn iter_mut(&mut self) -> (r: &mut [WafObject])
        ensures
            r@.len() == old(self).value_spec()->List_0.len(),
            forall|i: int| 0 <= i < r@.len() ==> (#[trigger] r@[i]).value_spec() == old(self).value_spec()->List_0[i],
            final(self).value_spec() == Value::List(items_value(final(r)@)),
            final(self).key_spec() == old(self).key_spec(),
    {
        proof {
            assert forall|i: int| 0 <= i < self.items@.len() implies (#[trigger] self.items@[i]).value_spec() == self.value_spec()->List_0[i] by {
                lemma_items_value_index(self.items@, i);
            }
        }
        self.items.as_mut_slice()
    }

    /// Returns true: a [`WafArray`] always holds a [`WafObjectType::Array`] value.
    pub fn is_valid(&self) -> (r: bool)
        ensures
            r == (self.value_spec().kind() == WafObjectType::Array),
    {
        true
    }
}

impl Default for WafArray {
    fn default() -> (r: Self)
        ensures
            r.value_spec() == Value::List(Seq::empty()),
            r.key_spec() == Seq::<u8>::empty(),
    {
        let r = WafArray { key: None, items: Vec::new() };
        assert(items_value(r.items@) =~= Seq::empty());
        r
    }
}

impl Default for WafObject {
    fn default() -> (r: Self)
        ensures
            r.value_spec() == Value::Invalid,
            r.key_spec() == Seq::<u8>::empty(),
    {
        WafObject { repr: Repr::Invalid(Keyed { value: WafInvalid { key: None } }) }
    }
}

/// The position of the first entry of `d` whose key is `key`, if any.
pub open spec fn first_with_key(d: Seq<(Seq<u8>, Value)>, key: Seq<u8>, i: int) -> bool {
    &&& 0 <= i < d.len()
    &&& d[i].0 == key
    &&& forall|j: int| 0 <= j < i ==> (#[trigger] d[j]).0 != key
}

impl WafMap {
    /// Creates a new [`WafMap`] with the provided size, every entry holding an invalid
    /// [`WafObject`] with a blank key.
    pub fn new(nb_entries: u64) -> (r: Self)
        requires
            nb_entries <= usize::MAX,
        ensures
            r.value_spec() == Value::Dict(invalid_entries(nb_entries as nat)),
            r.key_spec() == Seq::<u8>::empty(),
    {
        let size = nb_entries as usize;
        let mut entries: Vec<Keyed<WafObject>> = Vec::new();
        let mut i: usize = 0;
        while i < size
            invariant
                0 <= i <= size,
                entries@.len() == i,
                forall|j: int| 0 <= j < i ==> (#[trigger] entries@[j]).value_spec() == Value::Invalid
                    && entries@[j].key_spec() == Seq::<u8>::empty(),
            decreases size - i,
        {
            entries.push(Keyed { value: WafObject::default() });
            i = i + 1;
        }
        let r = WafMap { key: None, entries };
        assert(entries_value(r.entries@) =~= invalid_entries(nb_entries as nat));
        r
    }

    /// Returns the number of entries of this [`WafMap`].
    pub fn len(&self) -> (r: usize)
        ensures
            self.value_spec() == Value::Dict(self.value_spec()->Dict_0),
            r == self.value_spec()->Dict_0.len(),
    {
        self.entries.len()
    }

    /// Returns true if this [`WafMap`] is empty.
    pub fn is_empty(&self) -> (r: bool)
        ensures
            r == (self.value_spec()->Dict_0.len() == 0),
    {
        self.entries.len() == 0
    }

    /// Returns a reference to the entry at the provided index.
    pub fn at(&self, index: usize) -> (r: &Keyed<WafObject>)
        requires
            index < self.value_spec()->Dict_0.len(),
        ensures
            (r.key_spec(), r.value_spec()) == self.value_spec()->Dict_0[index as int],
    {
        proof {
            lemma_entries_value_index(self.entries@, index as int);
        }
        &self.entries[index]
    }

    /// Returns a mutable reference to the entry at the provided index.
    pub fn at_mut(&mut self, index: usize) -> (r: &mut Keyed<WafObject>)
        requires
            index < old(self).value_spec()->Dict_0.len(),
        ensures
            ((*r).key_spec(), (*r).value_spec()) == old(self).value_spec()->Dict_0[index as int],
            final(self).value_spec() == Value::Dict(
                old(self).value_spec()->Dict_0.update(
                    index as int,
                    ((*final(r)).key_spec(), (*final(r)).value_spec()),
                ),
            ),
            final(self).key_spec() == old(self).key_spec(),
    {
        proof {
            lemma_entries_value_index(self.entries@, index as int);
            assert forall|x: Keyed<WafObject>| #[trigger] entries_value(self.entries@.update(index as int, x))
                == entries_value(self.entries@).update(index as int, (x.key_spec(), x.value_spec())) by {
                lemma_entries_value_update(self.entries@, index as int, x);
            }
        }
        &mut self.entries[index]
    }

    /// Returns an iterator over the entries of this [`WafMap`].
    pub fn iter(&self) -> (r: std::slice::Iter<'_, Keyed<WafObject>>)
        ensures
            entries_value(vstd::std_specs::slice::into_iter_elts(r)) == self.value_spec()->Dict_0,
    {
        let r = self.entries.as_slice().iter();
        proof {
            broadcast use vstd::std_specs::slice::axiom_spec_slice_iter;
            assert(vstd::std_specs::slice::into_iter_elts(r) =~= self.entries@);
        }
        r
    }

    /// Returns the entries of this [`WafMap`] for in-place modification.
    pub fn iter_mut(&mut self) -> (r: &mut [Keyed<WafObject>])
        ensures
            r@.len() == old(self).value_spec()->Dict_0.len(),
            forall|i: int| 0 <= i < r@.len() ==> ((#[trigger] r@[i]).key_spec(), r@[i].value_spec())
                == old(self).value_spec()->Dict_0[i],
            final(self).value_spec() == Value::Dict(entries_value(final(r)@)),
            final(self).key_spec() == old(self).key_spec(),
    {
        proof {
            assert forall|i: int| 0 <= i < self.entries@.len() implies ((#[trigger] self.entries@[i]).key_spec(), self.entries@[i].value_spec())
                == self.value_spec()->Dict_0[i] by {
                lemma_entries_value_index(self.entries@, i);
            }
        }
        self.entries.as_mut_slice()
    }

    /// Returns the position of the first entry with the provided key, if one exists.
    fn position(&self, key: &[u8]) -> (r: Option<usize>)
        ensures
            r is None <==> forall|i: int| 0 <= i < self.value_spec()->Dict_0.len()
                ==> (#[trigger] self.value_spec()->Dict_0[i]).0 != key@,
            r is Some ==> first_with_key(self.value_spec()->Dict_0, key@, r->0 as int),
    {
        let mut i: usize = 0;
        while i < self.entries.len()
            invariant
                0 <= i <= self.entries@.len(),
                forall|j: int| 0 <= j < i ==> (#[trigger] self.value_spec()->Dict_0[j]).0 != key@,
            decreases self.entries@.len() - i,
        {
            proof {
                lemma_entries_value_index(self.entries@, i as int);
            }
            if bytes_equal(self.entries[i].raw_key(), key) {
                assert(self.value_spec()->Dict_0[i as int].0 == key@);
                return Some(i);
            }
            i = i + 1;
        }
        proof {
            if self.entries@.len() > 0 {
                lemma_entries_value_index(self.entries@, 0);
            }
        }
        None
    }

    /// Returns a reference to the first entry with the provided key, if one exists.
    ///
    /// Entries are searched in order; when several share the key, the first one is returned.
    pub fn get(&self, key: &[u8]) -> (r: Option<&Keyed<WafObject>>)
        ensures
            r is None <==> forall|i: int| 0 <= i < self.value_spec()->Dict_0.len()
                ==> (#[trigger] self.value_spec()->Dict_0[i]).0 != key@,
            r is Some ==> exists|i: int| first_with_key(self.value_spec()->Dict_0, key@, i)
                && (r->0.key_spec(), r->0.value_spec()) == self.value_spec()->Dict_0[i],
    {
        match self.position(key) {
            Some(i) => Some(self.at(i)),
            None => None,
        }
    }

    /// Returns a mutable reference to the first entry with the provided key, if one exists.
    pub fn get_mut(&mut self, key: &[u8]) -> (r: Option<&mut Keyed<WafObject>>)
        ensures
            r is None <==> forall|i: int| 0 <= i < old(self).value_spec()->Dict_0.len()
                ==> (#[trigger] old(self).value_spec()->Dict_0[i]).0 != key@,
            r is None ==> *final(self) == *old(self),
            r is Some ==> exists|i: int| {
                &&& first_with_key(old(self).value_spec()->Dict_0, key@, i)
                &&& ((*r.unwrap()).key_spec(), (*r.unwrap()).value_spec()) == old(self).value_spec()->Dict_0[i]
                &&& final(self).value_spec() == Value::Dict(
                    old(self).value_spec()->Dict_0.update(
                        i,
                        ((*final(r.unwrap())).key_spec(), (*final(r.unwrap())).value_spec()),
                    ),
                )
            },
            final(self).key_spec() == old(self).key_spec(),
    {
        match self.position(key) {
            Some(i) => Some(self.at_mut(i)),
            None => None,
        }
    }

    /// Returns a reference to the first entry with the provided textual key, if one exists.
    pub fn get_str(&self, key: &str) -> (r: Option<&Keyed<WafObject>>)
        ensures
            r is None <==> forall|i: int| 0 <= i < self.value_spec()->Dict_0.len()
                ==> (#[trigger] self.value_spec()->Dict_0[i]).0 != key.spec_bytes(),
            r is Some ==> exists|i: int| first_with_key(self.value_spec()->Dict_0, key.spec_bytes(), i)
                && (r->0.key_spec(), r->0.value_spec()) == self.value_spec()->Dict_0[i],
    {
        self.get(key.as_bytes())
    }

    /// Returns a mutable reference to the first entry with the provided textual key, if one
    /// exists.
    pub fn get_str_mut(&mut self, key: &str) -> (r: Option<&mut Keyed<WafObject>>)
        ensures
            r is None <==> forall|i: int| 0 <= i < old(self).value_spec()->Dict_0.len()
                ==> (#[trigger] old(self).value_spec()->Dict_0[i]).0 != key.spec_bytes(),
            r is None ==> *final(self) == *old(self),
            r is Some ==> exists|i: int| {
                &&& first_with_key(old(self).value_spec()->Dict_0, key.spec_bytes(), i)
                &&& ((*r.unwrap()).key_spec(), (*r.unwrap()).value_spec()) == old(self).value_spec()->Dict_0[i]
                &&& final(self).value_spec() == Value::Dict(
                    old(self).value_spec()->Dict_0.update(
                        i,
                        ((*final(r.unwrap())).key_spec(), (*final(r.unwrap())).value_spec()),
                    ),
                )
            },
            final(self).key_spec() == old(self).key_spec(),
    {
        self.get_mut(key.as_bytes())
    }

    /// Returns true: a [`WafMap`] always holds a [`WafObjectType::Mapping`] value.
    pub fn is_valid(&self) -> (r: bool)
        ensures
            r == (self.value_spec().kind() == WafObjectType::Mapping),
    {
        true
    }
}

impl Default for WafMap {
    fn default() -> (r: Self)
        ensures
            r.value_spec() == Value::Dict(Seq::empty()),
            r.key_spec() == Seq::<u8>::empty(),
    {
        let r = WafMap { key: None, entries: Vec::new() };
        assert(entries_value(r.entries@) =~= Seq::empty());
        r
    }
}

impl<T: Default + AsRawMutObject> Default for Keyed<T> {
    fn default() -> (r: Self) {
        Keyed { value: T::default() }
    }
}

impl<T: AsRawMutObject> Keyed<T> {
    /// Wraps the provided value, keeping the key it carries.
    pub fn new(value: T) -> (r: Self)
        ensures
            r.value_spec() == value.value_spec(),
            r.key_spec() == value.key_spec(),
    {
        Keyed { value }
    }

    /// Wraps the provided value under the provided key.
    pub fn with_key(key: &[u8], value: T) -> (r: Self)
        ensures
            r.value_spec() == value.value_spec(),
            r.key_spec() == key@,
    {
        let mut keyed = Keyed { value };
        keyed.value.set_raw_key(vstd::slice::slice_to_vec(key));
        keyed
    }

    /// Wraps the provided value under the provided textual key.
    pub fn with_key_str(key: &str, value: T) -> (r: Self)
        ensures
            r.value_spec() == value.value_spec(),
            r.key_spec() == key.spec_bytes(),
    {
        Keyed::with_key(key.as_bytes(), value)
    }

    /// Obtains a reference to the wrapped value.
    pub fn inner(&self) -> (r: &T)
        ensures
            r.value_spec() == self.value_spec(),
            r.key_spec() == self.key_spec(),
    {
        &self.value
    }

    /// Obtains the key associated with this value, as-is.
    pub fn key(&self) -> (r: &[u8])
        ensures
            r@ == self.key_spec(),
    {
        self.value.raw_key()
    }

    /// Obtains the key associated with this value as text.
    ///
    /// # Errors
    /// Returns an error if the key is not valid UTF-8.
    pub fn key_str(&self) -> (r: Result<&str, core::str::Utf8Error>)
        ensures
            r is Ok <==> valid_utf8(self.key_spec()),
            r is Ok ==> r->Ok_0.spec_bytes() == self.key_spec(),
    {
        utf8_str(self.value.raw_key())
    }

    /// Sets the key associated with this value; the previous key is dropped first, and an empty
    /// key takes no allocation.
    pub fn set_key(&mut self, key: &[u8]) -> (r: &mut Self)
        ensures
            (*r).key_spec() == key@,
            (*r).value_spec() == old(self).value_spec(),
            *final(self) == *final(r),
    {
        self.value.set_raw_key(vstd::slice::slice_to_vec(key));
        self
    }

    /// Sets the key associated with this value to the provided text.
    pub fn set_key_str(&mut self, key: &str) -> (r: &mut Self)
        ensures
            (*r).key_spec() == key.spec_bytes(),
            (*r).value_spec() == old(self).value_spec(),
            *final(self) == *final(r),
    {
        self.set_key(key.as_bytes())
    }
}

impl<T: AsRawMutObject> core::ops::Deref for Keyed<T> {
    type Target = T;

    fn deref(&self) -> &T {
        &self.value
    }
}

impl Keyed<WafObject> {
    /// Returns a reference to this entry as a keyed `T` if its type corresponds.
    pub fn as_type<T: TypedWafObject>(&self) -> (r: Option<&Keyed<T>>)
        ensures
            r is Some <==> self.value_spec().kind() == T::type_spec(),
            r is Some ==> r->0.value_spec() == self.value_spec() && r->0.key_spec() == self.key_spec(),
    {
        T::keyed_view_of(self)
    }

    /// Returns a mutable reference to this entry as a keyed `T` if its type corresponds.
    pub fn as_type_mut<T: TypedWafObject>(&mut self) -> (r: Option<&mut Keyed<T>>)
        ensures
            r is Some <==> old(self).value_spec().kind() == T::type_spec(),
            r is None ==> *final(self) == *old(self),
            r is Some ==> {
                &&& (*r.unwrap()).value_spec() == old(self).value_spec()
                &&& (*r.unwrap()).key_spec() == old(self).key_spec()
                &&& final(self).value_spec() == (*final(r.unwrap())).value_spec()
                &&& final(self).key_spec() == (*final(r.unwrap())).key_spec()
            },
    {
        T::keyed_view_of_mut(self)
    }
}

impl Keyed<WafArray> {
    /// Returns an iterator over the elements of the wrapped array.
    pub fn iter(&self) -> (r: std::slice::Iter<'_, WafObject>)
        ensures
            items_value(vstd::std_specs::slice::into_iter_elts(r)) == self.value_spec()->List_0,
    {
        self.value.iter()
    }

    /// Returns the elements of the wrapped array for in-place modification.
    pub fn iter_mut(&mut self) -> (r: &mut [WafObject])
        ensures
            r@.len() == old(self).value_spec()->List_0.len(),
            forall|i: int| 0 <= i < r@.len() ==> (#[trigger] r@[i]).value_spec() == old(self).value_spec()->List_0[i],
            final(self).value_spec() == Value::List(items_value(final(r)@)),
            final(self).key_spec() == old(self).key_spec(),
    {
        self.value.iter_mut()
    }
}

impl Keyed<WafMap> {
    /// Returns an iterator over the entries of the wrapped map.
    pub fn iter(&self) -> (r: std::slice::Iter<'_, Keyed<WafObject>>)
        ensures
            entries_value(vstd::std_specs::slice::into_iter_elts(r)) == self.value_spec()->Dict_0,
    {
        self.value.iter()
    }

    /// Returns the entries of the wrapped map for in-place modification.
    pub fn iter_mut(&mut self) -> (r: &mut [Keyed<WafObject>])
        ensures
            r@.len() == old(self).value_spec()->Dict_0.len(),
            forall|i: int| 0 <= i < r@.len() ==> ((#[trigger] r@[i]).key_spec(), r@[i].value_spec())
                == old(self).value_spec()->Dict_0[i],
            final(self).value_spec() == Value::Dict(entries_value(final(r)@)),
            final(self).key_spec() == old(self).key_spec(),
    {
        self.value.iter_mut()
    }
}

/// A [`WafObject`] or [`TypedWafObject`] value produced by the engine (diagnostics, evaluation
/// results).
///
/// Such values are copied out of the engine's memory, which is then released through the
/// engine's own deallocation entry point; the only way to build one from the caller's side is
/// [`WafOwned::default`], an empty value for a call that may or may not fill it in.
pub struct WafOwned<T> {
    inner: T,
}

impl<T: AsRawMutObject> WafOwned<T> {
    /// Wraps a value read back from the engine.
    pub fn from_engine(value: T) -> (r: Self)
        ensures
            r.value_spec() == value.value_spec(),
            r.key_spec() == value.key_spec(),
    {
        WafOwned { inner: value }
    }

    /// Obtains a reference to the wrapped value.
    pub fn inner(&self) -> (r: &T)
        ensures
            r.value_spec() == self.value_spec(),
            r.key_spec() == self.key_spec(),
    {
        &self.inner
    }
}

impl<T: AsRawMutObject> AsRawMutObject for WafOwned<T> {
    closed spec fn key_spec(&self) -> Seq<u8> {
        self.inner.key_spec()
    }

    closed spec fn value_spec(&self) -> Value {
        self.inner.value_spec()
    }

    fn raw_key(&self) -> (r: &[u8]) {
        self.inner.raw_key()
    }

    fn content(&self) -> (r: Content<'_>) {
        self.inner.content()
    }

    fn set_raw_key(&mut self, key: Vec<u8>) {
        self.inner.set_raw_key(key);
    }
}

impl<T: AsRawMutObject + Default> Default for WafOwned<T> {
    fn default() -> (r: Self) {
        WafOwned { inner: T::default() }
    }
}

impl<T: AsRawMutObject> core::ops::Deref for WafOwned<T> {
    type Target = T;

    fn deref(&self) -> &T {
        &self.inner
    }
}

impl<T: AsRawMutObject> core::ops::DerefMut for WafOwned<T> {
    fn deref_mut(&mut self) -> &mut T {
        &mut self.inner
    }
}

impl<T: AsRawMutObject, U: AsRawMutObject> PartialEq<U> for WafOwned<T> {
    fn eq(&self, other: &U) -> (r: bool) {
        eq::content_equal(self.inner.content(), other.content())
    }
}

impl<T: AsRawMutObject, U: AsRawMutObject> vstd::std_specs::cmp::PartialEqSpecImpl<U> for WafOwned<T> {
    open spec fn obeys_eq_spec() -> bool {
        true
    }

    open spec fn eq_spec(&self, other: &U) -> bool {
        value_eq(self.value_spec(), other.value_spec())
    }
}

/// The value of the first entry of `d` whose key is `key`, if any.
pub open spec fn entry_for(d: Seq<(Seq<u8>, Value)>, key: Seq<u8>) -> Option<Value> {
    if exists|i: int| first_with_key(d, key, i) {
        Some(d[choose|i: int| first_with_key(d, key, i)].1)
    } else {
        None
    }
}

/// Only one position holds the first entry with a given key.
pub proof fn lemma_first_with_key_unique(d: Seq<(Seq<u8>, Value)>, key: Seq<u8>, i: int, j: int)
    requires
        first_with_key(d, key, i),
        first_with_key(d, key, j),
    ensures
        i == j,
{
    if i < j {
        assert(d[i].0 != key);
    } else if j < i {
        assert(d[j].0 != key);
    }
}

/// A lookup by key returns the value of the first entry with that key.
pub proof fn lemma_get_is_entry_for(d: Seq<(Seq<u8>, Value)>, key: Seq<u8>, i: int)
    requires
        first_with_key(d, key, i),
    ensures
        entry_for(d, key) == Some(d[i].1),
{
    let j = choose|j: int| first_with_key(d, key, j);
    lemma_first_with_key_unique(d, key, i, j);
}

impl WafObject {
    /// Returns the length field the engine receives for a JSON text to parse, or `None` when
    /// the text is longer than that 32-bit field can say: such a text is refused before the
    /// engine is asked.
    pub fn json_length(json: &[u8]) -> (r: Option<u32>)
        ensures
            r is None <==> json@.len() > u32::MAX,
            r is Some ==> r->0 == json@.len(),
    {
        if json.len() > u32::MAX as usize {
            None
        } else {
            Some(json.len() as u32)
        }
    }
}

} // verus!
