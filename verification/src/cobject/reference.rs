//! Read-only views of tagged-union values the holder does not own.
//!
//! A [`CObjectMut`] is produced either by receiving a value from the
//! runtime (valid for the duration of the callback) or by borrowing an
//! owned [`CObject`]. All reading goes through [`CObjectMut::value_ref`],
//! the single conversion point from the tagged representation to an
//! exhaustively matched sum type; every narrowing accessor is defined in
//! terms of it.

use vstd::prelude::*;

use super::data::{
    cobject_data_view, lemma_data_seq_view, CObjectData, CObjectValue, TypedDataPayloadValue,
};
use super::owned::CObject;
use super::rust_values::{typed_data_kind, Capability, TypedData};
use super::type_enums::{CObjectType, TypedDataType, UnknownCObjectType, UnknownTypedDataType};
use crate::lifecycle::DartRuntime;
use crate::ports::{SendPort, ILLEGAL_PORT};

verus! {

/// Reference to a tagged-union value that can be read but isn't owned by
/// this side.
///
/// The foreign API hands such values out behind pointers that require a
/// mutable borrow to send; in this model the view itself is read-only, and
/// the sanctioned mutations (the post-send tombstone write) live on the
/// owned type.
pub struct CObjectMut<'a> {
    pub(crate) data: &'a CObjectData,
}

impl<'a> View for CObjectMut<'a> {
    type V = CObjectValue;

    closed spec fn view(&self) -> CObjectValue {
        cobject_data_view(*self.data)
    }
}

/// A reference to the data in a tagged-union value; copy types are
/// provided as copies instead.
pub enum CObjectValuesRef<'a> {
    /// The object is null.
    Null,
    /// The object is a bool.
    Bool(bool),
    /// The object is a 32bit int.
    Int32(i32),
    /// The object is a 64bit int.
    Int64(i64),
    /// The object is a 64bit float, as its IEEE-754 bit pattern.
    DoubleBits(u64),
    /// The object is a string.
    String(&'a str),
    /// The object is an array of object references.
    Array(Vec<CObjectMut<'a>>),
    /// The object is typed data.
    TypedData {
        /// `Ok` if the data is of a supported element kind.
        data: Result<&'a TypedData, UnknownTypedDataType>,
        /// Hints whether the data was externally typed. For reading the two
        /// kinds are identical; only ownership decisions distinguish them.
        external_typed: bool,
    },
    /// The object is a send-port descriptor; `Some` if the wrapped id is
    /// not the illegal-port sentinel.
    SendPort(Option<SendPort>),
    /// The object is a capability.
    Capability(Capability),
}

/// How a typed-data payload is presented to a reader: a known element kind
/// as a typed reference, an unknown kind as the typed error carrying its
/// raw tag.
pub open spec fn typed_payload_matches(
    p: TypedDataPayloadValue,
    r: Result<&TypedData, UnknownTypedDataType>,
) -> bool {
    match p {
        TypedDataPayloadValue::Known(tv) => r matches Ok(td) && td@ == tv,
        TypedDataPayloadValue::Unknown(k) => r matches Err(e) && e == UnknownTypedDataType(k),
    }
}

/// The element kind a typed-data payload reports.
pub open spec fn typed_payload_kind(p: TypedDataPayloadValue) -> Result<
    TypedDataType,
    UnknownTypedDataType,
> {
    match p {
        TypedDataPayloadValue::Known(tv) => Ok(typed_data_kind(tv)),
        TypedDataPayloadValue::Unknown(k) => Err(UnknownTypedDataType(k)),
    }
}

/// What reading a value as null yields.
pub open spec fn as_null_spec(v: CObjectValue) -> Option<()> {
    match v {
        CObjectValue::Null => Some(()),
        _ => None,
    }
}

/// What reading a value as a bool yields.
pub open spec fn as_bool_spec(v: CObjectValue) -> Option<bool> {
    match v {
        CObjectValue::Bool(b) => Some(b),
        _ => None,
    }
}

/// What reading a value as a 32bit int yields.
pub open spec fn as_int32_spec(v: CObjectValue) -> Option<i32> {
    match v {
        CObjectValue::Int32(x) => Some(x),
        _ => None,
    }
}

/// What reading a value as a 64bit int yields.
pub open spec fn as_int64_spec(v: CObjectValue) -> Option<i64> {
    match v {
        CObjectValue::Int64(x) => Some(x),
        _ => None,
    }
}

/// What reading a value as an int of either width yields.
pub open spec fn as_int_spec(v: CObjectValue) -> Option<i64> {
    match v {
        CObjectValue::Int32(x) => Some(x as i64),
        CObjectValue::Int64(x) => Some(x),
        _ => None,
    }
}

/// What reading a value as a 64bit float's bit pattern yields.
pub open spec fn as_double_bits_spec(v: CObjectValue) -> Option<u64> {
    match v {
        CObjectValue::DoubleBits(x) => Some(x),
        _ => None,
    }
}

/// What reading a value as a string yields.
pub open spec fn as_string_spec(v: CObjectValue) -> Option<Seq<char>> {
    match v {
        CObjectValue::String(s) => Some(s),
        _ => None,
    }
}

/// What reading a value as a capability yields.
pub open spec fn as_capability_spec(v: CObjectValue) -> Option<Capability> {
    match v {
        CObjectValue::Capability(c) => Some(c),
        _ => None,
    }
}

impl<'a> CObjectMut<'a> {
    /// Wrap a borrowed tagged-union value as a read-only view.
    ///
    /// This is how a value handed over by the runtime enters the library:
    /// the view lives exactly as long as the borrow, and the holder must
    /// not free the underlying value.
    pub fn from_data(data: &'a CObjectData) -> (r: CObjectMut<'a>)
        ensures
            r@ == data@,
    {
        CObjectMut { data }
    }

    /// Reborrows this instance.
    pub fn reborrow(&self) -> (r: CObjectMut<'_>)
        ensures
            r@ == self@,
    {
        CObjectMut { data: self.data }
    }

    /// Returns the type (tag/variant) of the value.
    ///
    /// # Errors
    ///
    /// Fails if the type is not known (supported) by this library.
    pub fn object_type(&self) -> (r: Result<CObjectType, UnknownCObjectType>)
        ensures
            r == crate::cobject::object_kind(self@),
    {
        match self.data {
            CObjectData::Null => Ok(CObjectType::Null),
            CObjectData::Bool(_) => Ok(CObjectType::Bool),
            CObjectData::Int32(_) => Ok(CObjectType::Int32),
            CObjectData::Int64(_) => Ok(CObjectType::Int64),
            CObjectData::DoubleBits(_) => Ok(CObjectType::Double),
            CObjectData::String(_) => Ok(CObjectType::String),
            CObjectData::Array(_) => Ok(CObjectType::Array),
            CObjectData::TypedData(_) => Ok(CObjectType::TypedData),
            CObjectData::ExternalTypedData(_, _) => Ok(CObjectType::ExternalTypedData),
            CObjectData::SendPort { .. } => Ok(CObjectType::SendPort),
            CObjectData::Capability(_) => Ok(CObjectType::Capability),
            CObjectData::Unknown(t) => Err(UnknownCObjectType(*t)),
        }
    }

    /// If the type is known, returns an enum with a type-specific reference
    /// to the data.
    ///
    /// All the `as_...` functions are based on this internally: it is the
    /// single point where the tagged representation is interpreted.
    ///
    /// # Errors
    ///
    /// If the object type is not supported an error is returned.
    pub fn value_ref(&self, rt: DartRuntime) -> (r: Result<CObjectValuesRef<'a>, UnknownCObjectType>)
        ensures
            (r is Ok) <==> !(self@ is Unknown),
            self@ matches CObjectValue::Unknown(t) ==> r == Err::<
                CObjectValuesRef<'a>,
                UnknownCObjectType,
            >(UnknownCObjectType(t)),
            self@ is Null ==> r matches Ok(CObjectValuesRef::Null),
            self@ matches CObjectValue::Bool(b) ==> r matches Ok(CObjectValuesRef::Bool(x)) && x
                == b,
            self@ matches CObjectValue::Int32(v) ==> r matches Ok(CObjectValuesRef::Int32(x)) && x
                == v,
            self@ matches CObjectValue::Int64(v) ==> r matches Ok(CObjectValuesRef::Int64(x)) && x
                == v,
            self@ matches CObjectValue::DoubleBits(v) ==> r matches Ok(
                CObjectValuesRef::DoubleBits(x),
            ) && x == v,
            self@ matches CObjectValue::String(s) ==> r matches Ok(CObjectValuesRef::String(x))
                && x@ == s,
            self@ matches CObjectValue::Array(vs) ==> r matches Ok(CObjectValuesRef::Array(arr))
                && arr@.len() == vs.len() && (forall|i: int|
                0 <= i < vs.len() ==> #[trigger] arr@[i]@ == vs[i]),
            self@ matches CObjectValue::TypedData(p) ==> r matches Ok(
                CObjectValuesRef::TypedData { data, external_typed },
            ) && typed_payload_matches(p, data) && !external_typed,
            self@ matches CObjectValue::ExternalTypedData(p, _) ==> r matches Ok(
                CObjectValuesRef::TypedData { data, external_typed },
            ) && typed_payload_matches(p, data) && external_typed,
            self@ matches CObjectValue::SendPort { id, origin } ==> r matches Ok(
                CObjectValuesRef::SendPort(sp),
            ) && (sp is Some <==> id != ILLEGAL_PORT) && (sp matches Some(p) ==> p.raw_port() == id
                && p.raw_origin() == origin),
            self@ matches CObjectValue::Capability(c) ==> r matches Ok(
                CObjectValuesRef::Capability(x),
            ) && x == c,
    {
        match self.data {
            CObjectData::Null => Ok(CObjectValuesRef::Null),
            CObjectData::Bool(b) => Ok(CObjectValuesRef::Bool(*b)),
            CObjectData::Int32(v) => Ok(CObjectValuesRef::Int32(*v)),
            CObjectData::Int64(v) => Ok(CObjectValuesRef::Int64(*v)),
            CObjectData::DoubleBits(v) => Ok(CObjectValuesRef::DoubleBits(*v)),
            CObjectData::String(s) => Ok(CObjectValuesRef::String(s.as_str())),
            CObjectData::Array(elems) => {
                let n = elems.len();
                let mut views: Vec<CObjectMut<'a>> = Vec::new();
                let mut i: usize = 0;
                while i < n
                    invariant
                        i <= n,
                        n == elems@.len(),
                        views@.len() == i,
                        forall|j: int|
                            0 <= j < i ==> #[trigger] views@[j]@ == cobject_data_view(elems@[j]),
                    decreases n - i,
                {
                    views.push(CObjectMut { data: &elems[i] });
                    i += 1;
                }
                proof {
                    lemma_data_seq_view(elems@);
                }
                Ok(CObjectValuesRef::Array(views))
            }
            CObjectData::TypedData(p) => {
                let data = match p {
                    super::data::TypedDataPayload::Known(td) => Ok(td),
                    super::data::TypedDataPayload::Unknown(k) => Err(UnknownTypedDataType(*k)),
                };
                Ok(CObjectValuesRef::TypedData { data, external_typed: false })
            }
            CObjectData::ExternalTypedData(p, _) => {
                let data = match p {
                    super::data::TypedDataPayload::Known(td) => Ok(td),
                    super::data::TypedDataPayload::Unknown(k) => Err(UnknownTypedDataType(*k)),
                };
                Ok(CObjectValuesRef::TypedData { data, external_typed: true })
            }
            CObjectData::SendPort { id, origin } => Ok(
                CObjectValuesRef::SendPort(rt.send_port_from_raw_with_origin(*id, *origin)),
            ),
            CObjectData::Capability(c) => Ok(CObjectValuesRef::Capability(*c)),
            CObjectData::Unknown(t) => Err(UnknownCObjectType(*t)),
        }
    }

    /// Returns `Some` if the object is null.
    pub fn as_null(&self, rt: DartRuntime) -> (r: Option<()>)
        ensures
            r == as_null_spec(self@),
    {
        if let Ok(CObjectValuesRef::Null) = self.value_ref(rt) {
            Some(())
        } else {
            None
        }
    }

    /// Returns `Some` if the object is a bool.
    pub fn as_bool(&self, rt: DartRuntime) -> (r: Option<bool>)
        ensures
            r == as_bool_spec(self@),
    {
        if let Ok(CObjectValuesRef::Bool(b)) = self.value_ref(rt) {
            Some(b)
        } else {
            None
        }
    }

    /// Returns `Some` if the object is a 32bit int.
    pub fn as_int32(&self, rt: DartRuntime) -> (r: Option<i32>)
        ensures
            r == as_int32_spec(self@),
    {
        if let Ok(CObjectValuesRef::Int32(v)) = self.value_ref(rt) {
            Some(v)
        } else {
            None
        }
    }

    /// Returns `Some` if the object is a 64bit int.
    pub fn as_int64(&self, rt: DartRuntime) -> (r: Option<i64>)
        ensures
            r == as_int64_spec(self@),
    {
        if let Ok(CObjectValuesRef::Int64(v)) = self.value_ref(rt) {
            Some(v)
        } else {
            None
        }
    }

    /// Returns `Some` if the object is a 32bit or 64bit int.
    pub fn as_int(&self, rt: DartRuntime) -> (r: Option<i64>)
        ensures
            r == as_int_spec(self@),
    {
        match self.as_int32(rt) {
            Some(v) => Some(v as i64),
            None => self.as_int64(rt),
        }
    }

    /// Returns `Some` if the object is a 64bit float, as its IEEE-754 bit
    /// pattern.
    pub fn as_double_bits(&self, rt: DartRuntime) -> (r: Option<u64>)
        ensures
            r == as_double_bits_spec(self@),
    {
        if let Ok(CObjectValuesRef::DoubleBits(v)) = self.value_ref(rt) {
            Some(v)
        } else {
            None
        }
    }

    /// Returns `Some` if the object is a string.
    pub fn as_string(&self, rt: DartRuntime) -> (r: Option<&'a str>)
        ensures
            (r is Some) <==> (as_string_spec(self@) is Some),
            r matches Some(s) ==> as_string_spec(self@) == Some(s@),
    {
        if let Ok(CObjectValuesRef::String(s)) = self.value_ref(rt) {
            Some(s)
        } else {
            None
        }
    }

    /// Returns `Some` if the object is an array of object references.
    pub fn as_array(&self, rt: DartRuntime) -> (r: Option<Vec<CObjectMut<'a>>>)
        ensures
            (r is Some) <==> (self@ is Array),
            self@ matches CObjectValue::Array(vs) ==> r matches Some(arr) && arr@.len() == vs.len()
                && (forall|i: int| 0 <= i < vs.len() ==> #[trigger] arr@[i]@ == vs[i]),
    {
        if let Ok(CObjectValuesRef::Array(arr)) = self.value_ref(rt) {
            Some(arr)
        } else {
            None
        }
    }

    /// Returns `Some` if the object is typed data (of either kind).
    ///
    /// It's `Some((Ok(..), _))` if the element kind is supported by this
    /// library, and `Some((_, true))` if the data is externally typed;
    /// for reading, the two kinds are identical.
    pub fn as_typed_data(&self, rt: DartRuntime) -> (r: Option<
        (Result<&'a TypedData, UnknownTypedDataType>, bool),
    >)
        ensures
            (r is Some) <==> (self@ is TypedData || self@ is ExternalTypedData),
            self@ matches CObjectValue::TypedData(p) ==> r matches Some((data, ext))
                && typed_payload_matches(p, data) && !ext,
            self@ matches CObjectValue::ExternalTypedData(p, _) ==> r matches Some((data, ext))
                && typed_payload_matches(p, data) && ext,
    {
        if let Ok(CObjectValuesRef::TypedData { data, external_typed }) = self.value_ref(rt) {
            Some((data, external_typed))
        } else {
            None
        }
    }

    /// Returns `Some` if the object is a send-port descriptor.
    ///
    /// Since the descriptor may carry the illegal-port sentinel — a
    /// legitimate received value meaning "no port" — the inner option is
    /// `None` in that case, so this is an `Option<Option<_>>`.
    pub fn as_send_port(&self, rt: DartRuntime) -> (r: Option<Option<SendPort>>)
        ensures
            (r is Some) <==> (self@ is SendPort),
            self@ matches CObjectValue::SendPort { id, origin } ==> r matches Some(sp) && (
            sp is Some <==> id != ILLEGAL_PORT) && (sp matches Some(p) ==> p.raw_port() == id
                && p.raw_origin() == origin),
    {
        if let Ok(CObjectValuesRef::SendPort(sp)) = self.value_ref(rt) {
            Some(sp)
        } else {
            None
        }
    }

    /// Returns `Some` if the object is a capability.
    pub fn as_capability(&self, rt: DartRuntime) -> (r: Option<Capability>)
        ensures
            r == as_capability_spec(self@),
    {
        if let Ok(CObjectValuesRef::Capability(c)) = self.value_ref(rt) {
            Some(c)
        } else {
            None
        }
    }

    /// Returns `Some` if the object is typed data (of either kind), giving
    /// only the element kind.
    ///
    /// Returns `Some(Err(_))` if the element kind isn't supported by this
    /// library.
    pub fn typed_data_type(&self) -> (r: Option<Result<TypedDataType, UnknownTypedDataType>>)
        ensures
            (r is Some) <==> (self@ is TypedData || self@ is ExternalTypedData),
            self@ matches CObjectValue::TypedData(p) ==> r == Some(typed_payload_kind(p)),
            self@ matches CObjectValue::ExternalTypedData(p, _) ==> r == Some(
                typed_payload_kind(p),
            ),
    {
        match self.data {
            CObjectData::TypedData(p) | CObjectData::ExternalTypedData(p, _) => {
                match p {
                    super::data::TypedDataPayload::Known(td) => Some(Ok(td.data_type())),
                    super::data::TypedDataPayload::Unknown(k) => Some(
                        Err(UnknownTypedDataType(*k)),
                    ),
                }
            }
            _ => None,
        }
    }
}

impl CObject {
    /// Create a [`CObjectMut`] view of this value.
    ///
    /// Be aware that this acts like a read-only reference; the `&mut`
    /// borrow mirrors the foreign API, whose send path wants one.
    pub fn as_mut(&mut self) -> (r: CObjectMut<'_>)
        ensures
            r@ == old(self)@,
            *final(self) == *old(self),
    {
        proof {
            super::owned::lemma_cobject_view(*self);
        }
        CObjectMut { data: &self.data }
    }

    /// Create a [`CObjectMut`] view of this value.
    pub fn as_ref(&self) -> (r: CObjectMut<'_>)
        ensures
            r@ == self@,
    {
        proof {
            super::owned::lemma_cobject_view(*self);
        }
        CObjectMut { data: &self.data }
    }
}

/// Read-after-construct law: reading an owned value back through the
/// narrowing accessor of the variant it was constructed with yields the
/// value it was constructed from.
pub proof fn lemma_read_after_construct(
    b: bool,
    i: i32,
    l: i64,
    bits: u64,
    s: Seq<char>,
    cap: i64,
)
    ensures
        as_null_spec(CObjectValue::Null) == Some(()),
        as_bool_spec(CObjectValue::Bool(b)) == Some(b),
        as_int32_spec(CObjectValue::Int32(i)) == Some(i),
        as_int64_spec(CObjectValue::Int64(l)) == Some(l),
        as_int_spec(CObjectValue::Int32(i)) == Some(i as i64),
        as_int_spec(CObjectValue::Int64(l)) == Some(l),
        as_double_bits_spec(CObjectValue::DoubleBits(bits)) == Some(bits),
        as_string_spec(CObjectValue::String(s)) == Some(s),
        as_capability_spec(CObjectValue::Capability(cap)) == Some(cap),
{
}

} // verus!
