//! Conversions between scalars, views, keyed views and generic objects, and what they keep.
use vstd::prelude::*;

use super::{
    entries_value, items_value, AsRawMutObject, Keyed, ObjectTypeError, Repr, TypedWafObject,
    Value, WafArray, WafBool, WafFloat, WafInvalid, WafMap, WafNull, WafObject, WafObjectType,
    WafSigned, WafString, WafUnsigned,
};

verus! {

impl TryFrom<WafObject> for WafInvalid {
    type Error = ObjectTypeError;

    fn try_from(obj: WafObject) -> (r: Result<Self, ObjectTypeError>) {
        let actual = obj.get_type();
        match obj.repr {
            Repr::Invalid(k) => Ok(k.value),
            _ => Err(ObjectTypeError { expected: WafObjectType::Invalid, actual }),
        }
    }
}

impl vstd::std_specs::convert::TryFromSpecImpl<WafObject> for WafInvalid {
    open spec fn obeys_try_from_spec() -> bool {
        true
    }

    closed spec fn try_from_spec(obj: WafObject) -> Result<Self, ObjectTypeError> {
        match obj.repr {
            Repr::Invalid(k) => Ok(k.value),
            _ => Err(ObjectTypeError { expected: WafObjectType::Invalid, actual: obj.value_spec().kind() }),
        }
    }
}

impl TryFrom<WafObject> for WafSigned {
    type Error = ObjectTypeError;

    fn try_from(obj: WafObject) -> (r: Result<Self, ObjectTypeError>) {
        let actual = obj.get_type();
        match obj.repr {
            Repr::Signed(k) => Ok(k.value),
            _ => Err(ObjectTypeError { expected: WafObjectType::Signed, actual }),
        }
    }
}

impl vstd::std_specs::convert::TryFromSpecImpl<WafObject> for WafSigned {
    open spec fn obeys_try_from_spec() -> bool {
        true
    }

    closed spec fn try_from_spec(obj: WafObject) -> Result<Self, ObjectTypeError> {
        match obj.repr {
            Repr::Signed(k) => Ok(k.value),
            _ => Err(ObjectTypeError { expected: WafObjectType::Signed, actual: obj.value_spec().kind() }),
        }
    }
}

impl TryFrom<WafObject> for WafUnsigned {
    type Error = ObjectTypeError;

    fn try_from(obj: WafObject) -> (r: Result<Self, ObjectTypeError>) {
        let actual = obj.get_type();
        match obj.repr {
            Repr::Unsigned(k) => Ok(k.value),
            _ => Err(ObjectTypeError { expected: WafObjectType::Unsigned, actual }),
        }
    }
}

impl vstd::std_specs::convert::TryFromSpecImpl<WafObject> for WafUnsigned {
    open spec fn obeys_try_from_spec() -> bool {
        true
    }

    closed spec fn try_from_spec(obj: WafObject) -> Result<Self, ObjectTypeError> {
        match obj.repr {
            Repr::Unsigned(k) => Ok(k.value),
            _ => Err(ObjectTypeError { expected: WafObjectType::Unsigned, actual: obj.value_spec().kind() }),
        }
    }
}

impl TryFrom<WafObject> for WafString {
    type Error = ObjectTypeError;

    fn try_from(obj: WafObject) -> (r: Result<Self, ObjectTypeError>) {
        let actual = obj.get_type();
        match obj.repr {
            Repr::String(k) => Ok(k.value),
            _ => Err(ObjectTypeError { expected: WafObjectType::String, actual }),
        }
    }
}

impl vstd::std_specs::convert::TryFromSpecImpl<WafObject> for WafString {
    open spec fn obeys_try_from_spec() -> bool {
        true
    }

    closed spec fn try_from_spec(obj: WafObject) -> Result<Self, ObjectTypeError> {
        match obj.repr {
            Repr::String(k) => Ok(k.value),
            _ => Err(ObjectTypeError { expected: WafObjectType::String, actual: obj.value_spec().kind() }),
        }
    }
}

impl TryFrom<WafObject> for WafArray {
    type Error = ObjectTypeError;

    fn try_from(obj: WafObject) -> (r: Result<Self, ObjectTypeError>) {
        let actual = obj.get_type();
        match obj.repr {
            Repr::Array(k) => Ok(k.value),
            _ => Err(ObjectTypeError { expected: WafObjectType::Array, actual }),
        }
    }
}

impl vstd::std_specs::convert::TryFromSpecImpl<WafObject> for WafArray {
    open spec fn obeys_try_from_spec() -> bool {
        true
    }

    closed spec fn try_from_spec(obj: WafObject) -> Result<Self, ObjectTypeError> {
        match obj.repr {
            Repr::Array(k) => Ok(k.value),
            _ => Err(ObjectTypeError { expected: WafObjectType::Array, actual: obj.value_spec().kind() }),
        }
    }
}

impl TryFrom<WafObject> for WafMap {
    type Error = ObjectTypeError;

    fn try_from(obj: WafObject) -> (r: Result<Self, ObjectTypeError>) {
        let actual = obj.get_type();
        match obj.repr {
            Repr::Mapping(k) => Ok(k.value),
            _ => Err(ObjectTypeError { expected: WafObjectType::Mapping, actual }),
        }
    }
}

impl vstd::std_specs::convert::TryFromSpecImpl<WafObject> for WafMap {
    open spec fn obeys_try_from_spec() -> bool {
        true
    }

    closed spec fn try_from_spec(obj: WafObject) -> Result<Self, ObjectTypeError> {
        match obj.repr {
            Repr::Mapping(k) => Ok(k.value),
            _ => Err(ObjectTypeError { expected: WafObjectType::Mapping, actual: obj.value_spec().kind() }),
        }
    }
}

impl TryFrom<WafObject> for WafBool {
    type Error = ObjectTypeError;

    fn try_from(obj: WafObject) -> (r: Result<Self, ObjectTypeError>) {
        let actual = obj.get_type();
        match obj.repr {
            Repr::Bool(k) => Ok(k.value),
            _ => Err(ObjectTypeError { expected: WafObjectType::Bool, actual }),
        }
    }
}

impl vstd::std_specs::convert::TryFromSpecImpl<WafObject> for WafBool {
    open spec fn obeys_try_from_spec() -> bool {
        true
    }

    closed spec fn try_from_spec(obj: WafObject) -> Result<Self, ObjectTypeError> {
        match obj.repr {
            Repr::Bool(k) => Ok(k.value),
            _ => Err(ObjectTypeError { expected: WafObjectType::Bool, actual: obj.value_spec().kind() }),
        }
    }
}

impl TryFrom<WafObject> for WafFloat {
    type Error = ObjectTypeError;

    fn try_from(obj: WafObject) -> (r: Result<Self, ObjectTypeError>) {
        let actual = obj.get_type();
        match obj.repr {
            Repr::Float(k) => Ok(k.value),
            _ => Err(ObjectTypeError { expected: WafObjectType::Float, actual }),
        }
    }
}

impl vstd::std_specs::convert::TryFromSpecImpl<WafObject> for WafFloat {
    open spec fn obeys_try_from_spec() -> bool {
        true
    }

    closed spec fn try_from_spec(obj: WafObject) -> Result<Self, ObjectTypeError> {
        match obj.repr {
            Repr::Float(k) => Ok(k.value),
            _ => Err(ObjectTypeError { expected: WafObjectType::Float, actual: obj.value_spec().kind() }),
        }
    }
}

impl TryFrom<WafObject> for WafNull {
    type Error = ObjectTypeError;

    fn try_from(obj: WafObject) -> (r: Result<Self, ObjectTypeError>) {
        let actual = obj.get_type();
        match obj.repr {
            Repr::Null(k) => Ok(k.value),
            _ => Err(ObjectTypeError { expected: WafObjectType::Null, actual }),
        }
    }
}

impl vstd::std_specs::convert::TryFromSpecImpl<WafObject> for WafNull {
    open spec fn obeys_try_from_spec() -> bool {
        true
    }

    closed spec fn try_from_spec(obj: WafObject) -> Result<Self, ObjectTypeError> {
        match obj.repr {
            Repr::Null(k) => Ok(k.value),
            _ => Err(ObjectTypeError { expected: WafObjectType::Null, actual: obj.value_spec().kind() }),
        }
    }
}

impl From<i64> for WafSigned {
    fn from(v: i64) -> (r: Self) {
        WafSigned { key: None, val: v }
    }
}

impl vstd::std_specs::convert::FromSpecImpl<i64> for WafSigned {
    open spec fn obeys_from_spec() -> bool {
        true
    }

    open spec fn from_spec(v: i64) -> Self {
        WafSigned::spec_new(v)
    }
}

impl From<i64> for WafObject {
    fn from(v: i64) -> (r: Self) {
        WafObject { repr: Repr::Signed(Keyed { value: WafSigned { key: None, val: v } }) }
    }
}

impl vstd::std_specs::convert::FromSpecImpl<i64> for WafObject {
    open spec fn obeys_from_spec() -> bool {
        true
    }

    open spec fn from_spec(v: i64) -> Self {
        WafSigned::spec_new(v).object_spec()
    }
}

impl From<i32> for WafSigned {
    fn from(v: i32) -> (r: Self) {
        WafSigned { key: None, val: v as i64 }
    }
}

impl vstd::std_specs::convert::FromSpecImpl<i32> for WafSigned {
    open spec fn obeys_from_spec() -> bool {
        true
    }

    open spec fn from_spec(v: i32) -> Self {
        WafSigned::spec_new(v as i64)
    }
}

impl From<i32> for WafObject {
    fn from(v: i32) -> (r: Self) {
        WafObject { repr: Repr::Signed(Keyed { value: WafSigned { key: None, val: v as i64 } }) }
    }
}

impl vstd::std_specs::convert::FromSpecImpl<i32> for WafObject {
    open spec fn obeys_from_spec() -> bool {
        true
    }

    open spec fn from_spec(v: i32) -> Self {
        WafSigned::spec_new(v as i64).object_spec()
    }
}

impl From<u64> for WafUnsigned {
    fn from(v: u64) -> (r: Self) {
        WafUnsigned { key: None, val: v }
    }
}

impl vstd::std_specs::convert::FromSpecImpl<u64> for WafUnsigned {
    open spec fn obeys_from_spec() -> bool {
        true
    }

    open spec fn from_spec(v: u64) -> Self {
        WafUnsigned::spec_new(v)
    }
}

impl From<u64> for WafObject {
    fn from(v: u64) -> (r: Self) {
        WafObject { repr: Repr::Unsigned(Keyed { value: WafUnsigned { key: None, val: v } }) }
    }
}

impl vstd::std_specs::convert::FromSpecImpl<u64> for WafObject {
    open spec fn obeys_from_spec() -> bool {
        true
    }

    open spec fn from_spec(v: u64) -> Self {
        WafUnsigned::spec_new(v).object_spec()
    }
}

impl From<u32> for WafUnsigned {
    fn from(v: u32) -> (r: Self) {
        WafUnsigned { key: None, val: v as u64 }
    }
}

impl vstd::std_specs::convert::FromSpecImpl<u32> for WafUnsigned {
    open spec fn obeys_from_spec() -> bool {
        true
    }

    open spec fn from_spec(v: u32) -> Self {
        WafUnsigned::spec_new(v as u64)
    }
}

impl From<u32> for WafObject {
    fn from(v: u32) -> (r: Self) {
        WafObject { repr: Repr::Unsigned(Keyed { value: WafUnsigned { key: None, val: v as u64 } }) }
    }
}

impl vstd::std_specs::convert::FromSpecImpl<u32> for WafObject {
    open spec fn obeys_from_spec() -> bool {
        true
    }

    open spec fn from_spec(v: u32) -> Self {
        WafUnsigned::spec_new(v as u64).object_spec()
    }
}

impl From<bool> for WafBool {
    fn from(v: bool) -> (r: Self) {
        WafBool { key: None, val: v }
    }
}

impl vstd::std_specs::convert::FromSpecImpl<bool> for WafBool {
    open spec fn obeys_from_spec() -> bool {
        true
    }

    open spec fn from_spec(v: bool) -> Self {
        WafBool::spec_new(v)
    }
}

impl From<bool> for WafObject {
    fn from(v: bool) -> (r: Self) {
        WafObject { repr: Repr::Bool(Keyed { value: WafBool { key: None, val: v } }) }
    }
}

impl vstd::std_specs::convert::FromSpecImpl<bool> for WafObject {
    open spec fn obeys_from_spec() -> bool {
        true
    }

    open spec fn from_spec(v: bool) -> Self {
        WafBool::spec_new(v).object_spec()
    }
}

impl From<()> for WafNull {
    fn from(v: ()) -> (r: Self) {
        WafNull { key: None }
    }
}

impl vstd::std_specs::convert::FromSpecImpl<()> for WafNull {
    open spec fn obeys_from_spec() -> bool {
        true
    }

    open spec fn from_spec(v: ()) -> Self {
        WafNull::spec_new()
    }
}

impl From<()> for WafObject {
    fn from(v: ()) -> (r: Self) {
        WafObject { repr: Repr::Null(Keyed { value: WafNull { key: None } }) }
    }
}

impl vstd::std_specs::convert::FromSpecImpl<()> for WafObject {
    open spec fn obeys_from_spec() -> bool {
        true
    }

    open spec fn from_spec(v: ()) -> Self {
        WafNull::spec_new().object_spec()
    }
}

impl From<Vec<WafObject>> for WafArray {
    fn from(v: Vec<WafObject>) -> (r: Self) {
        WafArray { key: None, items: v }
    }
}

impl vstd::std_specs::convert::FromSpecImpl<Vec<WafObject>> for WafArray {
    open spec fn obeys_from_spec() -> bool {
        true
    }

    open spec fn from_spec(v: Vec<WafObject>) -> Self {
        WafArray::spec_from_items(v)
    }
}

impl From<Vec<Keyed<WafObject>>> for WafMap {
    fn from(v: Vec<Keyed<WafObject>>) -> (r: Self) {
        WafMap { key: None, entries: v }
    }
}

impl vstd::std_specs::convert::FromSpecImpl<Vec<Keyed<WafObject>>> for WafMap {
    open spec fn obeys_from_spec() -> bool {
        true
    }

    open spec fn from_spec(v: Vec<Keyed<WafObject>>) -> Self {
        WafMap::spec_from_entries(v)
    }
}

impl<T: TypedWafObject> From<T> for WafObject {
    fn from(v: T) -> (r: Self) {
        v.into_object()
    }
}

impl<T: TypedWafObject> vstd::std_specs::convert::FromSpecImpl<T> for WafObject {
    open spec fn obeys_from_spec() -> bool {
        true
    }

    open spec fn from_spec(v: T) -> Self {
        v.object_spec()
    }
}

impl<T: TypedWafObject> From<Keyed<T>> for Keyed<WafObject> {
    fn from(v: Keyed<T>) -> (r: Self) {
        Keyed { value: v.value.into_object() }
    }
}

impl<T: TypedWafObject> vstd::std_specs::convert::FromSpecImpl<Keyed<T>> for Keyed<WafObject> {
    open spec fn obeys_from_spec() -> bool {
        true
    }

    open spec fn from_spec(v: Keyed<T>) -> Self {
        v.generic_spec()
    }
}

impl<T: TypedWafObject> Keyed<T> {
    /// This keyed view as a keyed generic object.
    pub closed spec fn generic_spec(self) -> Keyed<WafObject> {
        Keyed { value: self.value.object_spec() }
    }
}

impl Keyed<WafObject> {
    /// This keyed object as a keyed `T`, when its type is `T`'s.
    pub closed spec fn typed_spec<T: TypedWafObject>(self) -> Option<Keyed<T>> {
        match T::view_spec(self.value) {
            Some(v) => Some(Keyed { value: v }),
            None => None,
        }
    }

    /// Moves this keyed object into a keyed `T` when its type corresponds, and hands it back
    /// unchanged otherwise; no key or content is copied or lost either way.
    pub fn into_type<T: TypedWafObject>(self) -> (r: Result<Keyed<T>, Keyed<WafObject>>)
        ensures
            r == (match self.typed_spec::<T>() {
                Some(k) => Ok(k),
                None => Err(self),
            }),
            r is Ok <==> self.value_spec().kind() == T::type_spec(),
            r is Ok ==> r->Ok_0.value_spec() == self.value_spec() && r->Ok_0.key_spec() == self.key_spec(),
    {
        proof {
            T::lemma_view_spec(self.value);
        }
        match T::from_object(self.value) {
            Ok(v) => Ok(Keyed { value: v }),
            Err(obj) => Err(Keyed { value: obj }),
        }
    }
}

/// Moving a view into a generic object and back yields the very same view: key and content
/// are neither copied nor lost, so every accessor of the view reads back what it read before.
pub proof fn law_view_round_trip<T: TypedWafObject>(view: T)
    ensures
        T::view_spec(view.object_spec()) == Some(view),
        view.object_spec().value_spec() == view.value_spec(),
        view.object_spec().key_spec() == view.key_spec(),
{
    view.lemma_view_round_trip();
    T::lemma_view_spec(view.object_spec());
}

/// Moving a keyed view into a keyed generic object and back yields the very same keyed view,
/// with its key and content unchanged.
pub proof fn law_keyed_round_trip<T: TypedWafObject>(keyed: Keyed<T>)
    ensures
        keyed.generic_spec().typed_spec::<T>() == Some(keyed),
        keyed.generic_spec().key_spec() == keyed.key_spec(),
        keyed.generic_spec().value_spec() == keyed.value_spec(),
{
    keyed.value.lemma_view_round_trip();
    T::lemma_view_spec(keyed.value.object_spec());
}

impl WafSigned {
    /// The signed object freshly built for a value.
    pub closed spec fn spec_new(val: i64) -> WafSigned {
        WafSigned { key: None, val }
    }
}

impl WafUnsigned {
    /// The unsigned object freshly built for a value.
    pub closed spec fn spec_new(val: u64) -> WafUnsigned {
        WafUnsigned { key: None, val }
    }
}

impl WafBool {
    /// The boolean object freshly built for a value.
    pub closed spec fn spec_new(val: bool) -> WafBool {
        WafBool { key: None, val }
    }
}

impl WafNull {
    /// The null object freshly built.
    pub closed spec fn spec_new() -> WafNull {
        WafNull { key: None }
    }
}

impl WafMap {
    /// The map object taking ownership of the provided entries.
    pub closed spec fn spec_from_entries(entries: Vec<Keyed<WafObject>>) -> WafMap {
        WafMap { key: None, entries }
    }
}

/// A freshly built signed object holds its value and no key.
pub broadcast proof fn lemma_signed_new(x: i64)
    ensures
        #[trigger] WafSigned::spec_new(x).value_spec() == Value::Signed(x),
        WafSigned::spec_new(x).key_spec() == Seq::<u8>::empty(),
{
}

/// A freshly built unsigned object holds its value and no key.
pub broadcast proof fn lemma_unsigned_new(y: u64)
    ensures
        #[trigger] WafUnsigned::spec_new(y).value_spec() == Value::Unsigned(y),
        WafUnsigned::spec_new(y).key_spec() == Seq::<u8>::empty(),
{
}

/// A freshly built boolean object holds its value and no key.
pub broadcast proof fn lemma_bool_new(b: bool)
    ensures
        #[trigger] WafBool::spec_new(b).value_spec() == Value::Bool(b),
        WafBool::spec_new(b).key_spec() == Seq::<u8>::empty(),
{
}

/// A freshly built null object is null and has no key.
pub proof fn lemma_null_new()
    ensures
        WafNull::spec_new().value_spec() == Value::Null,
        WafNull::spec_new().key_spec() == Seq::<u8>::empty(),
{
}

/// An array built from elements holds their contents.
pub broadcast proof fn lemma_array_from_items(items: Vec<WafObject>)
    ensures
        #[trigger] WafArray::spec_from_items(items).value_spec() == Value::List(items_value(items@)),
        WafArray::spec_from_items(items).key_spec() == Seq::<u8>::empty(),
{
}

/// A map built from entries holds their keys and contents.
pub broadcast proof fn lemma_map_from_entries(entries: Vec<Keyed<WafObject>>)
    ensures
        #[trigger] WafMap::spec_from_entries(entries).value_spec() == Value::Dict(entries_value(entries@)),
        WafMap::spec_from_entries(entries).key_spec() == Seq::<u8>::empty(),
{
}

/// A view moved into a generic object keeps its key and content.
pub broadcast proof fn lemma_object_spec<T: TypedWafObject>(view: T)
    ensures
        #[trigger] view.object_spec().value_spec() == view.value_spec(),
        view.object_spec().key_spec() == view.key_spec(),
{
    view.lemma_view_round_trip();
    T::lemma_view_spec(view.object_spec());
}

/// A keyed view moved into a keyed generic object keeps its key and content.
pub broadcast proof fn lemma_generic_spec<T: TypedWafObject>(keyed: Keyed<T>)
    ensures
        #[trigger] keyed.generic_spec().value_spec() == keyed.value_spec(),
        keyed.generic_spec().key_spec() == keyed.key_spec(),
{
    keyed.value.lemma_view_round_trip();
    T::lemma_view_spec(keyed.value.object_spec());
}

/// The contents of the elements of an array, one by one.
pub broadcast proof fn lemma_items_value(items: Seq<WafObject>, i: int)
    requires
        0 <= i < items.len(),
    ensures
        #[trigger] items_value(items)[i] == items[i].value_spec(),
        items_value(items).len() == items.len(),
{
}

/// The keys and contents of the entries of a map, one by one.
pub broadcast proof fn lemma_entries_value(entries: Seq<Keyed<WafObject>>, i: int)
    requires
        0 <= i < entries.len(),
    ensures
        #[trigger] entries_value(entries)[i] == (entries[i].key_spec(), entries[i].value_spec()),
        entries_value(entries).len() == entries.len(),
{
}

/// An array holds as many contents as elements.
pub broadcast proof fn lemma_items_value_len(items: Seq<WafObject>)
    ensures
        #[trigger] items_value(items).len() == items.len(),
{
}

/// A map holds as many keyed contents as entries.
pub broadcast proof fn lemma_entries_value_len(entries: Seq<Keyed<WafObject>>)
    ensures
        #[trigger] entries_value(entries).len() == entries.len(),
{
}

/// What the conversions and constructors of objects hold, for verified callers to bring in
/// with `broadcast use`.
pub broadcast group group_object_conversions {
    lemma_signed_new,
    lemma_unsigned_new,
    lemma_bool_new,
    lemma_array_from_items,
    lemma_map_from_entries,
    lemma_object_spec,
    lemma_generic_spec,
    lemma_items_value,
    lemma_entries_value,
    lemma_items_value_len,
    lemma_entries_value_len,
}




impl WafArray {
    /// The array object taking ownership of the provided elements.
    pub closed spec fn spec_from_items(items: Vec<WafObject>) -> WafArray {
        WafArray { key: None, items }
    }
}

} // verus!
