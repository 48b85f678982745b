//! The tagged-union value itself, as safe data.
//!
//! [`CObjectData`] can represent everything a foreign object handed over by
//! the runtime can be, including states this library never constructs: an
//! in-place typed-data payload, a typed-data payload of an element kind this
//! library does not know, and an object whose type tag is outside the known
//! set altogether. The owned builder ([`CObject`](super::CObject)) restricts
//! itself to the constructible subset.

use vstd::prelude::*;

use super::rust_values::{TypedData, TypedDataValue};
use super::type_enums::{CObjectType, UnknownCObjectType};

verus! {

/// A typed-data payload as found in a foreign object: either of a known
/// element kind, or of a kind outside the known set (carried as its raw
/// tag, since its bytes cannot be interpreted).
#[derive(Debug, Clone)]
pub enum TypedDataPayload {
    Known(TypedData),
    Unknown(i32),
}

/// The mathematical value of a [`TypedDataPayload`].
#[verifier::ext_equal]
pub enum TypedDataPayloadValue {
    Known(TypedDataValue),
    Unknown(i32),
}

impl View for TypedDataPayload {
    type V = TypedDataPayloadValue;

    open spec fn view(&self) -> TypedDataPayloadValue {
        match self {
            TypedDataPayload::Known(d) => TypedDataPayloadValue::Known(d@),
            TypedDataPayload::Unknown(k) => TypedDataPayloadValue::Unknown(*k),
        }
    }
}

/// One tagged-union message value.
///
/// The discriminant and the payload cannot disagree here, by construction;
/// every read still goes through accessors that classify the variant first,
/// so unknown tags surface as typed errors exactly as they do on the raw
/// struct.
#[derive(Debug)]
pub enum CObjectData {
    Null,
    Bool(bool),
    Int32(i32),
    Int64(i64),
    /// A 64-bit float, carried as its IEEE-754 bit pattern.
    DoubleBits(u64),
    String(String),
    Array(Vec<CObjectData>),
    /// In-place typed data. Received from the runtime only; this library
    /// never constructs it (the builder is restricted to the external,
    /// buffer-transfer variant).
    TypedData(TypedDataPayload),
    /// Externally typed data: the buffer plus the finalizer's peer token.
    ExternalTypedData(TypedDataPayload, u64),
    /// A send-port descriptor. An id equal to the illegal-port sentinel
    /// denotes "no port".
    SendPort { id: i64, origin: i64 },
    Capability(i64),
    /// An object whose type tag lies outside the known set.
    Unknown(i32),
}

/// The mathematical value of a [`CObjectData`].
#[verifier::ext_equal]
pub enum CObjectValue {
    Null,
    Bool(bool),
    Int32(i32),
    Int64(i64),
    DoubleBits(u64),
    String(Seq<char>),
    Array(Seq<CObjectValue>),
    TypedData(TypedDataPayloadValue),
    ExternalTypedData(TypedDataPayloadValue, u64),
    SendPort { id: i64, origin: i64 },
    Capability(i64),
    Unknown(i32),
}

/// The mathematical value of a [`CObjectData`], recursing through arrays.
pub open spec fn cobject_data_view(d: CObjectData) -> CObjectValue
    decreases d,
{
    match d {
        CObjectData::Null => CObjectValue::Null,
        CObjectData::Bool(b) => CObjectValue::Bool(b),
        CObjectData::Int32(v) => CObjectValue::Int32(v),
        CObjectData::Int64(v) => CObjectValue::Int64(v),
        CObjectData::DoubleBits(v) => CObjectValue::DoubleBits(v),
        CObjectData::String(s) => CObjectValue::String(s@),
        CObjectData::Array(elems) => CObjectValue::Array(cobject_data_seq_view(elems@)),
        CObjectData::TypedData(p) => CObjectValue::TypedData(p@),
        CObjectData::ExternalTypedData(p, peer) => CObjectValue::ExternalTypedData(p@, peer),
        CObjectData::SendPort { id, origin } => CObjectValue::SendPort { id, origin },
        CObjectData::Capability(c) => CObjectValue::Capability(c),
        CObjectData::Unknown(t) => CObjectValue::Unknown(t),
    }
}

/// Element-wise [`cobject_data_view`] over a sequence.
pub open spec fn cobject_data_seq_view(s: Seq<CObjectData>) -> Seq<CObjectValue>
    decreases s,
{
    if s.len() == 0 {
        Seq::empty()
    } else {
        cobject_data_seq_view(s.drop_last()).push(cobject_data_view(s.last()))
    }
}

impl View for CObjectData {
    type V = CObjectValue;

    open spec fn view(&self) -> CObjectValue {
        cobject_data_view(*self)
    }
}

/// [`cobject_data_seq_view`] is the element-wise view.
pub proof fn lemma_data_seq_view(s: Seq<CObjectData>)
    ensures
        cobject_data_seq_view(s).len() == s.len(),
        forall|i: int| 0 <= i < s.len() ==> cobject_data_seq_view(s)[i] == cobject_data_view(s[i]),
    decreases s,
{
    if s.len() > 0 {
        lemma_data_seq_view(s.drop_last());
    }
}

/// The classification the type tag of a value receives: every variant this
/// library knows maps to its [`CObjectType`]; a tag outside the known set is
/// the typed unknown error carrying that tag.
pub open spec fn object_kind(v: CObjectValue) -> Result<CObjectType, UnknownCObjectType> {
    match v {
        CObjectValue::Null => Ok(CObjectType::Null),
        CObjectValue::Bool(_) => Ok(CObjectType::Bool),
        CObjectValue::Int32(_) => Ok(CObjectType::Int32),
        CObjectValue::Int64(_) => Ok(CObjectType::Int64),
        CObjectValue::DoubleBits(_) => Ok(CObjectType::Double),
        CObjectValue::String(_) => Ok(CObjectType::String),
        CObjectValue::Array(_) => Ok(CObjectType::Array),
        CObjectValue::TypedData(_) => Ok(CObjectType::TypedData),
        CObjectValue::ExternalTypedData(_, _) => Ok(CObjectType::ExternalTypedData),
        CObjectValue::SendPort { .. } => Ok(CObjectType::SendPort),
        CObjectValue::Capability(_) => Ok(CObjectType::Capability),
        CObjectValue::Unknown(t) => Err(UnknownCObjectType(t)),
    }
}

/// The finalizer obligations reachable in a value: the peer token of every
/// external-typed-data payload, in left-to-right order.
pub open spec fn finalizer_peers(v: CObjectValue) -> Seq<u64>
    decreases v,
{
    match v {
        CObjectValue::ExternalTypedData(_, peer) => seq![peer],
        CObjectValue::Array(elems) => finalizer_peers_seq(elems),
        _ => Seq::empty(),
    }
}

/// Concatenated [`finalizer_peers`] over a sequence of values.
pub open spec fn finalizer_peers_seq(s: Seq<CObjectValue>) -> Seq<u64>
    decreases s,
{
    if s.len() == 0 {
        Seq::empty()
    } else {
        finalizer_peers(s.first()) + finalizer_peers_seq(s.drop_first())
    }
}

/// The value after the post-send tombstone write: every external-typed-data
/// payload (whose buffer the runtime now owns) is rewritten to Null,
/// recursing through arrays; every other variant is unchanged.
pub open spec fn nulled_externals(v: CObjectValue) -> CObjectValue
    decreases v,
{
    match v {
        CObjectValue::ExternalTypedData(_, _) => CObjectValue::Null,
        CObjectValue::Array(elems) => CObjectValue::Array(nulled_externals_seq(elems)),
        _ => v,
    }
}

/// Element-wise [`nulled_externals`] over a sequence of values.
pub open spec fn nulled_externals_seq(s: Seq<CObjectValue>) -> Seq<CObjectValue>
    decreases s,
{
    if s.len() == 0 {
        Seq::empty()
    } else {
        seq![nulled_externals(s.first())] + nulled_externals_seq(s.drop_first())
    }
}

/// [`nulled_externals_seq`] is the element-wise map.
pub proof fn lemma_nulled_externals_seq(s: Seq<CObjectValue>)
    ensures
        nulled_externals_seq(s).len() == s.len(),
        forall|i: int| 0 <= i < s.len() ==> nulled_externals_seq(s)[i] == nulled_externals(s[i]),
    decreases s,
{
    if s.len() > 0 {
        lemma_nulled_externals_seq(s.drop_first());
        assert forall|i: int| 0 <= i < s.len() implies nulled_externals_seq(s)[i]
            == nulled_externals(s[i]) by {
            if i > 0 {
                assert(nulled_externals_seq(s)[i] == nulled_externals_seq(s.drop_first())[i - 1]);
                assert(s.drop_first()[i - 1] == s[i]);
            }
        }
    }
}

/// The variants the owned builder can construct, and hence knows how to
/// release: everything except in-place typed data, unknown element kinds,
/// and unknown type tags — recursively through arrays.
pub open spec fn constructible(v: CObjectValue) -> bool
    decreases v,
{
    match v {
        CObjectValue::TypedData(_) => false,
        CObjectValue::Unknown(_) => false,
        CObjectValue::ExternalTypedData(p, _) => p is Known,
        CObjectValue::Array(elems) => constructible_seq(elems),
        _ => true,
    }
}

/// [`constructible`] over every element of a sequence.
pub open spec fn constructible_seq(s: Seq<CObjectValue>) -> bool
    decreases s,
{
    s.len() == 0 || (constructible(s.first()) && constructible_seq(s.drop_first()))
}

/// [`constructible_seq`] is the element-wise conjunction.
pub proof fn lemma_constructible_seq(s: Seq<CObjectValue>)
    ensures
        constructible_seq(s) <==> (forall|i: int| 0 <= i < s.len() ==> constructible(s[i])),
    decreases s,
{
    if s.len() > 0 {
        lemma_constructible_seq(s.drop_first());
        if constructible(s.first()) && constructible_seq(s.drop_first()) {
            assert forall|i: int| 0 <= i < s.len() implies constructible(s[i]) by {
                if i > 0 {
                    assert(s.drop_first()[i - 1] == s[i]);
                }
            }
        }
        if forall|i: int| 0 <= i < s.len() ==> constructible(s[i]) {
            assert forall|i: int| 0 <= i < s.drop_first().len() implies constructible(
                s.drop_first()[i],
            ) by {
                assert(s.drop_first()[i] == s[i + 1]);
            }
        }
    }
}

/// Ownership-transfer law: after the tombstone write that follows a
/// successful send, no finalizer obligation remains anywhere in the value —
/// releasing it locally runs no finalizer a second time.
pub proof fn lemma_nulled_externals_no_peers(v: CObjectValue)
    ensures
        finalizer_peers(nulled_externals(v)) == Seq::<u64>::empty(),
    decreases v,
{
    match v {
        CObjectValue::Array(elems) => {
            lemma_nulled_externals_no_peers_seq(elems);
        }
        _ => {}
    }
}

/// [`lemma_nulled_externals_no_peers`], over a sequence of values.
pub proof fn lemma_nulled_externals_no_peers_seq(s: Seq<CObjectValue>)
    ensures
        finalizer_peers_seq(nulled_externals_seq(s)) == Seq::<u64>::empty(),
    decreases s,
{
    if s.len() > 0 {
        lemma_nulled_externals_no_peers(s.first());
        lemma_nulled_externals_no_peers_seq(s.drop_first());
        let ns = nulled_externals_seq(s);
        assert(ns.first() == nulled_externals(s.first()));
        assert(ns.drop_first() =~= nulled_externals_seq(s.drop_first()));
    }
}

/// Single-destruction law: an externally typed value that was not sent
/// owes exactly one finalizer invocation, for its own peer; after the
/// tombstone write of a successful send it owes none.
pub proof fn lemma_single_destruction(p: TypedDataPayloadValue, peer: u64)
    ensures
        finalizer_peers(CObjectValue::ExternalTypedData(p, peer)) == seq![peer],
        finalizer_peers(nulled_externals(CObjectValue::ExternalTypedData(p, peer))) == Seq::<
            u64,
        >::empty(),
{
}

/// Array-depth law: the tombstone write maps arrays element-wise, so it
/// reaches externally typed payloads at any nesting depth, while an element
/// that is neither externally typed nor an array is untouched.
pub proof fn lemma_array_depth_nulling(s: Seq<CObjectValue>, i: int)
    requires
        0 <= i < s.len(),
    ensures
        nulled_externals(CObjectValue::Array(s)) matches CObjectValue::Array(ns) && ns.len()
            == s.len() && ns[i] == nulled_externals(s[i]),
        !(s[i] is ExternalTypedData) && !(s[i] is Array) ==> nulled_externals(s[i]) == s[i],
{
    lemma_nulled_externals_seq(s);
}

/// The tombstone write keeps the value in the constructible subset.
pub proof fn lemma_nulled_externals_constructible(v: CObjectValue)
    ensures
        constructible(v) ==> constructible(nulled_externals(v)),
    decreases v,
{
    match v {
        CObjectValue::Array(elems) => {
            lemma_nulled_externals_constructible_seq(elems);
        }
        _ => {}
    }
}

/// [`lemma_nulled_externals_constructible`], over a sequence of values.
pub proof fn lemma_nulled_externals_constructible_seq(s: Seq<CObjectValue>)
    ensures
        constructible_seq(s) ==> constructible_seq(nulled_externals_seq(s)),
    decreases s,
{
    if s.len() > 0 {
        lemma_nulled_externals_constructible(s.first());
        lemma_nulled_externals_constructible_seq(s.drop_first());
        if constructible_seq(s) {
            let ns = nulled_externals_seq(s);
            assert(ns.first() == nulled_externals(s.first()));
            assert(ns.drop_first() =~= nulled_externals_seq(s.drop_first()));
        }
    }
}

} // verus!
