//! Plain-data value types carried by a [`CObject`](crate::cobject::CObject).

use vstd::prelude::*;

use super::type_enums::TypedDataType;

verus! {

/// An opaque capability token carried as one of the object variants.
pub type Capability = i64;

/// Owned typed data that can be handed to the runtime through a
/// [`CObject`](crate::cobject::CObject).
///
/// Floating-point element kinds are carried as their IEEE-754 bit patterns,
/// the form in which they cross the boundary; the vector aggregates are
/// carried as tuples of lanes.
#[derive(Debug, Clone)]
pub enum TypedData {
    ByteData(Vec<u8>),
    Int8(Vec<i8>),
    Uint8(Vec<u8>),
    Uint8Clamped(Vec<u8>),
    Int16(Vec<i16>),
    Uint16(Vec<u16>),
    Int32(Vec<i32>),
    Uint32(Vec<u32>),
    Int64(Vec<i64>),
    Uint64(Vec<u64>),
    Float32(Vec<u32>),
    Float64(Vec<u64>),
    Int32x4(Vec<(i32, i32, i32, i32)>),
    Float32x4(Vec<(u32, u32, u32, u32)>),
    Float64x2(Vec<(u64, u64)>),
}

/// The mathematical value of a [`TypedData`]: the same element kinds over
/// sequences.
#[verifier::ext_equal]
pub enum TypedDataValue {
    ByteData(Seq<u8>),
    Int8(Seq<i8>),
    Uint8(Seq<u8>),
    Uint8Clamped(Seq<u8>),
    Int16(Seq<i16>),
    Uint16(Seq<u16>),
    Int32(Seq<i32>),
    Uint32(Seq<u32>),
    Int64(Seq<i64>),
    Uint64(Seq<u64>),
    Float32(Seq<u32>),
    Float64(Seq<u64>),
    Int32x4(Seq<(i32, i32, i32, i32)>),
    Float32x4(Seq<(u32, u32, u32, u32)>),
    Float64x2(Seq<(u64, u64)>),
}

impl View for TypedData {
    type V = TypedDataValue;

    open spec fn view(&self) -> TypedDataValue {
        match self {
            TypedData::ByteData(d) => TypedDataValue::ByteData(d@),
            TypedData::Int8(d) => TypedDataValue::Int8(d@),
            TypedData::Uint8(d) => TypedDataValue::Uint8(d@),
            TypedData::Uint8Clamped(d) => TypedDataValue::Uint8Clamped(d@),
            TypedData::Int16(d) => TypedDataValue::Int16(d@),
            TypedData::Uint16(d) => TypedDataValue::Uint16(d@),
            TypedData::Int32(d) => TypedDataValue::Int32(d@),
            TypedData::Uint32(d) => TypedDataValue::Uint32(d@),
            TypedData::Int64(d) => TypedDataValue::Int64(d@),
            TypedData::Uint64(d) => TypedDataValue::Uint64(d@),
            TypedData::Float32(d) => TypedDataValue::Float32(d@),
            TypedData::Float64(d) => TypedDataValue::Float64(d@),
            TypedData::Int32x4(d) => TypedDataValue::Int32x4(d@),
            TypedData::Float32x4(d) => TypedDataValue::Float32x4(d@),
            TypedData::Float64x2(d) => TypedDataValue::Float64x2(d@),
        }
    }
}

/// The element kind of a typed-data value.
pub open spec fn typed_data_kind(v: TypedDataValue) -> TypedDataType {
    match v {
        TypedDataValue::ByteData(_) => TypedDataType::ByteData,
        TypedDataValue::Int8(_) => TypedDataType::Int8,
        TypedDataValue::Uint8(_) => TypedDataType::Uint8,
        TypedDataValue::Uint8Clamped(_) => TypedDataType::Uint8Clamped,
        TypedDataValue::Int16(_) => TypedDataType::Int16,
        TypedDataValue::Uint16(_) => TypedDataType::Uint16,
        TypedDataValue::Int32(_) => TypedDataType::Int32,
        TypedDataValue::Uint32(_) => TypedDataType::Uint32,
        TypedDataValue::Int64(_) => TypedDataType::Int64,
        TypedDataValue::Uint64(_) => TypedDataType::Uint64,
        TypedDataValue::Float32(_) => TypedDataType::Float32,
        TypedDataValue::Float64(_) => TypedDataType::Float64,
        TypedDataValue::Int32x4(_) => TypedDataType::Int32x4,
        TypedDataValue::Float32x4(_) => TypedDataType::Float32x4,
        TypedDataValue::Float64x2(_) => TypedDataType::Float64x2,
    }
}

impl TypedData {
    /// Returns the element kind of this typed data.
    ///
    /// The kind is always derived from the variant itself, never assumed by
    /// the caller: element kind and element representation cannot disagree.
    pub fn data_type(&self) -> (r: TypedDataType)
        ensures
            r == typed_data_kind(self@),
    {
        match self {
            TypedData::ByteData(_) => TypedDataType::ByteData,
            TypedData::Int8(_) => TypedDataType::Int8,
            TypedData::Uint8(_) => TypedDataType::Uint8,
            TypedData::Uint8Clamped(_) => TypedDataType::Uint8Clamped,
            TypedData::Int16(_) => TypedDataType::Int16,
            TypedData::Uint16(_) => TypedDataType::Uint16,
            TypedData::Int32(_) => TypedDataType::Int32,
            TypedData::Uint32(_) => TypedDataType::Uint32,
            TypedData::Int64(_) => TypedDataType::Int64,
            TypedData::Uint64(_) => TypedDataType::Uint64,
            TypedData::Float32(_) => TypedDataType::Float32,
            TypedData::Float64(_) => TypedDataType::Float64,
            TypedData::Int32x4(_) => TypedDataType::Int32x4,
            TypedData::Float32x4(_) => TypedDataType::Float32x4,
            TypedData::Float64x2(_) => TypedDataType::Float64x2,
        }
    }
}

/// The external-typed-data payload handed to the runtime: the buffer itself
/// plus an opaque `peer` token standing for the boxed ownership handle that
/// the finalizer callback receives.
///
/// The finalizer contract is modeled by the peer token: releasing a value
/// that holds this payload yields exactly one finalizer obligation for
/// `peer` (see [`CObject::dispose`](crate::cobject::CObject::dispose)).
#[derive(Debug, Clone)]
pub struct ExternalTypedData {
    /// The buffer being handed over.
    pub data: TypedData,
    /// Opaque token identifying the ownership handle the finalizer releases.
    pub peer: u64,
}

/// Hook to allow sending custom external typed data.
///
/// The returned payload's buffer is handed to the runtime without copying;
/// its `peer` token identifies whatever ownership handle the implementor
/// wants the finalizer to release.
pub trait CustomExternalTyped {
    /// Consumes this value into the external-typed-data payload.
    ///
    /// This should only be called by the owned-object builder, which takes
    /// over the obligation to run the finalizer exactly once.
    fn into_external_typed_data(self) -> ExternalTypedData;
}

impl CustomExternalTyped for TypedData {
    fn into_external_typed_data(self) -> ExternalTypedData {
        ExternalTypedData { data: self, peer: 0 }
    }
}

} // verus!
