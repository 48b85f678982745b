//! The type-tag registry: closed enumerations for the foreign integer type
//! tags, with total raw conversions in one direction and classification of
//! arbitrary raw tags in the other.
//!
//! Raw tag values follow the foreign header. Tags outside the known sets
//! (added by newer runtime versions, or the explicit "unsupported" /
//! "number of types" / "invalid" sentinels) are recoverable errors, never
//! undefined behavior.

use vstd::prelude::*;

verus! {

/// Supported types of [`CObject`](crate::cobject::CObject)s.
#[derive(Debug, Copy, Clone, PartialEq, Eq, Hash, Structural)]
pub enum CObjectType {
    Null,
    Bool,
    Int32,
    Int64,
    Double,
    String,
    Array,
    TypedData,
    ExternalTypedData,
    SendPort,
    Capability,
}

/// The object type tag isn't known/supported by this library.
///
/// There are a few cases where a tag is not supported:
///
/// - It was added in a newer runtime version.
/// - It's the explicit "unsupported" sentinel.
/// - It's the "number of types" sentinel.
#[derive(Debug, Copy, Clone, PartialEq, Eq, Structural)]
pub struct UnknownCObjectType(pub i32);

/// The typed-data element kind isn't known/supported by this library.
///
/// There are a few cases where a tag is not supported:
///
/// - It was added in a newer runtime version.
/// - It's the explicit "invalid" sentinel.
#[derive(Debug, Copy, Clone, PartialEq, Eq, Structural)]
pub struct UnknownTypedDataType(pub i32);

/// The element kind of typed data in a [`CObject`](crate::cobject::CObject).
#[derive(Debug, Copy, Clone, PartialEq, Eq, Hash, Structural)]
pub enum TypedDataType {
    ByteData,
    Int8,
    Uint8,
    Uint8Clamped,
    Int16,
    Uint16,
    Int32,
    Uint32,
    Int64,
    Uint64,
    Float32,
    Float64,
    Int32x4,
    Float32x4,
    Float64x2,
}

/// The raw tag the foreign ABI uses for an object type.
pub open spec fn object_type_tag(t: CObjectType) -> i32 {
    match t {
        CObjectType::Null => 0,
        CObjectType::Bool => 1,
        CObjectType::Int32 => 2,
        CObjectType::Int64 => 3,
        CObjectType::Double => 4,
        CObjectType::String => 5,
        CObjectType::Array => 6,
        CObjectType::TypedData => 7,
        CObjectType::ExternalTypedData => 8,
        CObjectType::SendPort => 9,
        CObjectType::Capability => 10,
    }
}

/// Classification of an arbitrary raw object tag.
pub open spec fn classify_object_tag(raw: i32) -> Result<CObjectType, UnknownCObjectType> {
    if raw == 0 {
        Ok(CObjectType::Null)
    } else if raw == 1 {
        Ok(CObjectType::Bool)
    } else if raw == 2 {
        Ok(CObjectType::Int32)
    } else if raw == 3 {
        Ok(CObjectType::Int64)
    } else if raw == 4 {
        Ok(CObjectType::Double)
    } else if raw == 5 {
        Ok(CObjectType::String)
    } else if raw == 6 {
        Ok(CObjectType::Array)
    } else if raw == 7 {
        Ok(CObjectType::TypedData)
    } else if raw == 8 {
        Ok(CObjectType::ExternalTypedData)
    } else if raw == 9 {
        Ok(CObjectType::SendPort)
    } else if raw == 10 {
        Ok(CObjectType::Capability)
    } else {
        Err(UnknownCObjectType(raw))
    }
}

/// The raw tag the foreign ABI uses for a typed-data element kind.
pub open spec fn typed_data_type_tag(t: TypedDataType) -> i32 {
    match t {
        TypedDataType::ByteData => 0,
        TypedDataType::Int8 => 1,
        TypedDataType::Uint8 => 2,
        TypedDataType::Uint8Clamped => 3,
        TypedDataType::Int16 => 4,
        TypedDataType::Uint16 => 5,
        TypedDataType::Int32 => 6,
        TypedDataType::Uint32 => 7,
        TypedDataType::Int64 => 8,
        TypedDataType::Uint64 => 9,
        TypedDataType::Float32 => 10,
        TypedDataType::Float64 => 11,
        TypedDataType::Int32x4 => 12,
        TypedDataType::Float32x4 => 13,
        TypedDataType::Float64x2 => 14,
    }
}

/// Classification of an arbitrary raw typed-data element kind tag.
pub open spec fn classify_typed_data_tag(raw: i32) -> Result<TypedDataType, UnknownTypedDataType> {
    if raw == 0 {
        Ok(TypedDataType::ByteData)
    } else if raw == 1 {
        Ok(TypedDataType::Int8)
    } else if raw == 2 {
        Ok(TypedDataType::Uint8)
    } else if raw == 3 {
        Ok(TypedDataType::Uint8Clamped)
    } else if raw == 4 {
        Ok(TypedDataType::Int16)
    } else if raw == 5 {
        Ok(TypedDataType::Uint16)
    } else if raw == 6 {
        Ok(TypedDataType::Int32)
    } else if raw == 7 {
        Ok(TypedDataType::Uint32)
    } else if raw == 8 {
        Ok(TypedDataType::Int64)
    } else if raw == 9 {
        Ok(TypedDataType::Uint64)
    } else if raw == 10 {
        Ok(TypedDataType::Float32)
    } else if raw == 11 {
        Ok(TypedDataType::Float64)
    } else if raw == 12 {
        Ok(TypedDataType::Int32x4)
    } else if raw == 13 {
        Ok(TypedDataType::Float32x4)
    } else if raw == 14 {
        Ok(TypedDataType::Float64x2)
    } else {
        Err(UnknownTypedDataType(raw))
    }
}

impl CObjectType {
    /// The raw tag value of this object type.
    pub fn to_raw(self) -> (r: i32)
        ensures
            r == object_type_tag(self),
    {
        match self {
            CObjectType::Null => 0,
            CObjectType::Bool => 1,
            CObjectType::Int32 => 2,
            CObjectType::Int64 => 3,
            CObjectType::Double => 4,
            CObjectType::String => 5,
            CObjectType::Array => 6,
            CObjectType::TypedData => 7,
            CObjectType::ExternalTypedData => 8,
            CObjectType::SendPort => 9,
            CObjectType::Capability => 10,
        }
    }

    /// Classify a raw object type tag.
    ///
    /// # Errors
    ///
    /// Fails if the tag is not known (supported) by this library.
    pub fn from_raw(raw: i32) -> (r: Result<CObjectType, UnknownCObjectType>)
        ensures
            r == classify_object_tag(raw),
    {
        if raw == 0 {
            Ok(CObjectType::Null)
        } else if raw == 1 {
            Ok(CObjectType::Bool)
        } else if raw == 2 {
            Ok(CObjectType::Int32)
        } else if raw == 3 {
            Ok(CObjectType::Int64)
        } else if raw == 4 {
            Ok(CObjectType::Double)
        } else if raw == 5 {
            Ok(CObjectType::String)
        } else if raw == 6 {
            Ok(CObjectType::Array)
        } else if raw == 7 {
            Ok(CObjectType::TypedData)
        } else if raw == 8 {
            Ok(CObjectType::ExternalTypedData)
        } else if raw == 9 {
            Ok(CObjectType::SendPort)
        } else if raw == 10 {
            Ok(CObjectType::Capability)
        } else {
            Err(UnknownCObjectType(raw))
        }
    }
}

impl TypedDataType {
    /// The raw tag value of this typed-data element kind.
    pub fn to_raw(self) -> (r: i32)
        ensures
            r == typed_data_type_tag(self),
    {
        match self {
            TypedDataType::ByteData => 0,
            TypedDataType::Int8 => 1,
            TypedDataType::Uint8 => 2,
            TypedDataType::Uint8Clamped => 3,
            TypedDataType::Int16 => 4,
            TypedDataType::Uint16 => 5,
            TypedDataType::Int32 => 6,
            TypedDataType::Uint32 => 7,
            TypedDataType::Int64 => 8,
            TypedDataType::Uint64 => 9,
            TypedDataType::Float32 => 10,
            TypedDataType::Float64 => 11,
            TypedDataType::Int32x4 => 12,
            TypedDataType::Float32x4 => 13,
            TypedDataType::Float64x2 => 14,
        }
    }

    /// Classify a raw typed-data element kind tag.
    ///
    /// # Errors
    ///
    /// Fails if the tag is not known (supported) by this library.
    pub fn from_raw(raw: i32) -> (r: Result<TypedDataType, UnknownTypedDataType>)
        ensures
            r == classify_typed_data_tag(raw),
    {
        if raw == 0 {
            Ok(TypedDataType::ByteData)
        } else if raw == 1 {
            Ok(TypedDataType::Int8)
        } else if raw == 2 {
            Ok(TypedDataType::Uint8)
        } else if raw == 3 {
            Ok(TypedDataType::Uint8Clamped)
        } else if raw == 4 {
            Ok(TypedDataType::Int16)
        } else if raw == 5 {
            Ok(TypedDataType::Uint16)
        } else if raw == 6 {
            Ok(TypedDataType::Int32)
        } else if raw == 7 {
            Ok(TypedDataType::Uint32)
        } else if raw == 8 {
            Ok(TypedDataType::Int64)
        } else if raw == 9 {
            Ok(TypedDataType::Uint64)
        } else if raw == 10 {
            Ok(TypedDataType::Float32)
        } else if raw == 11 {
            Ok(TypedDataType::Float64)
        } else if raw == 12 {
            Ok(TypedDataType::Int32x4)
        } else if raw == 13 {
            Ok(TypedDataType::Float32x4)
        } else if raw == 14 {
            Ok(TypedDataType::Float64x2)
        } else {
            Err(UnknownTypedDataType(raw))
        }
    }
}

/// Round-trip law for object type tags: classifying the raw tag of any known
/// object type yields that type back, and no two object types share a raw tag.
pub proof fn lemma_object_tag_round_trip(t: CObjectType)
    ensures
        classify_object_tag(object_type_tag(t)) == Ok::<CObjectType, UnknownCObjectType>(t),
        forall|u: CObjectType| object_type_tag(u) == object_type_tag(t) ==> u == t,
{
}

/// Round-trip law for typed-data element kind tags: classifying the raw tag
/// of any known kind yields that kind back, and no two kinds share a raw tag.
pub proof fn lemma_typed_data_tag_round_trip(t: TypedDataType)
    ensures
        classify_typed_data_tag(typed_data_type_tag(t)) == Ok::<TypedDataType, UnknownTypedDataType>(t),
        forall|u: TypedDataType| typed_data_type_tag(u) == typed_data_type_tag(t) ==> u == t,
{
}

/// Unknown-tag law: a raw tag outside the known set is always classified as
/// the typed unknown error carrying that tag, in both tag domains.
pub proof fn lemma_unknown_tags_are_errors(raw: i32)
    ensures
        (classify_object_tag(raw) is Err) <==> !(0 <= raw <= 10),
        classify_object_tag(raw) is Err ==> classify_object_tag(raw) == Err::<CObjectType, UnknownCObjectType>(UnknownCObjectType(raw)),
        (classify_typed_data_tag(raw) is Err) <==> !(0 <= raw <= 14),
        classify_typed_data_tag(raw) is Err ==> classify_typed_data_tag(raw) == Err::<TypedDataType, UnknownTypedDataType>(UnknownTypedDataType(raw)),
{
}

} // verus!
