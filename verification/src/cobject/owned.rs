//! The owned tagged-union value: construction and release.
//!
//! A [`CObject`] is a value this library built itself, together with the
//! obligation to release each variant's resources exactly once. Exactly one
//! of two things must happen to it: it is released locally
//! ([`CObject::dispose`]), or it is handed to the runtime by a successful
//! send, after which the local copy is rewritten to Null so that a later
//! release runs no finalizer a second time.
//!
//! The builder is deliberately restricted to variants it knows how to
//! release; in particular the in-place typed-data variant is read-only from
//! the runtime and never constructed here (the external, buffer-transfer
//! variant is constructed instead).

use vstd::prelude::*;
use vstd::string::StrSliceExecFns;
use vstd::string::StringExecFns;

use super::data::{
    cobject_data_seq_view, cobject_data_view, constructible, constructible_seq, finalizer_peers,
    finalizer_peers_seq, lemma_constructible_seq, lemma_data_seq_view,
    lemma_nulled_externals_constructible, lemma_nulled_externals_seq, nulled_externals,
    nulled_externals_seq, CObjectData, CObjectValue, TypedDataPayload, TypedDataPayloadValue,
};
use super::rust_values::{Capability, CustomExternalTyped, ExternalTypedData, TypedData};
use crate::ports::SendPort;

verus! {

/// Error: the string handed to [`CObject::string`] holds an embedded NUL
/// byte, which the NUL-terminated foreign representation cannot carry.
#[derive(Debug, Clone, Copy, PartialEq, Eq, Structural)]
pub struct EmbeddedNul;

/// Whether a character sequence holds a NUL character.
pub open spec fn contains_nul(s: Seq<char>) -> bool {
    exists|i: int| 0 <= i < s.len() && s[i] == '\u{0}'
}

/// Index of the first NUL character, or the length if there is none.
pub open spec fn first_nul_index(s: Seq<char>) -> int
    decreases s.len(),
{
    if s.len() == 0 {
        0
    } else if s.first() == '\u{0}' {
        0
    } else {
        1 + first_nul_index(s.drop_first())
    }
}

/// Characterization of [`first_nul_index`]: everything before it is
/// NUL-free, and it points at a NUL exactly when the sequence holds one.
pub proof fn lemma_first_nul_index(s: Seq<char>)
    ensures
        0 <= first_nul_index(s) <= s.len(),
        forall|i: int| 0 <= i < first_nul_index(s) ==> s[i] != '\u{0}',
        first_nul_index(s) < s.len() ==> s[first_nul_index(s)] == '\u{0}',
        contains_nul(s) <==> first_nul_index(s) < s.len(),
    decreases s.len(),
{
    if s.len() == 0 {
    } else if s.first() == '\u{0}' {
        assert(s[0] == '\u{0}');
    } else {
        let d = s.drop_first();
        lemma_first_nul_index(d);
        assert forall|i: int| 0 <= i < first_nul_index(s) implies s[i] != '\u{0}' by {
            if i > 0 {
                assert(d[i - 1] == s[i]);
            }
        }
        if contains_nul(s) {
            let i = choose|i: int| 0 <= i < s.len() && s[i] == '\u{0}';
            assert(i > 0);
            assert(d[i - 1] == s[i]);
            assert(contains_nul(d));
        }
        if contains_nul(d) {
            let i = choose|i: int| 0 <= i < d.len() && d[i] == '\u{0}';
            assert(s[i + 1] == d[i]);
            assert(contains_nul(s));
        }
    }
}

/// Index of the first NUL character of `s`, or its character length if
/// there is none.
pub(crate) fn find_nul(s: &str) -> (r: usize)
    ensures
        r == first_nul_index(s@),
{
    proof {
        lemma_first_nul_index(s@);
    }
    let n = s.unicode_len();
    let mut j: usize = 0;
    while j < n
        invariant
            j <= n,
            n == s@.len(),
            forall|i: int| 0 <= i < j ==> s@[i] != '\u{0}',
        decreases n - j,
    {
        if s.get_char(j) == '\u{0}' {
            proof {
                lemma_first_nul_index(s@);
            }
            return j;
        }
        j += 1;
    }
    n
}

/// Wrapper around a tagged-union value which is owned by this side.
pub struct CObject {
    pub(crate) data: CObjectData,
}

impl View for CObject {
    type V = CObjectValue;

    closed spec fn view(&self) -> CObjectValue {
        cobject_data_view(self.data)
    }
}

/// Bridges the opaque view of [`CObject`] to the view of its data, for the
/// sibling modules of this one.
pub(crate) proof fn lemma_cobject_view(c: CObject)
    ensures
        c@ == cobject_data_view(c.data),
{
}

impl CObject {
    #[verifier::type_invariant]
    spec fn owned_constructible(self) -> bool {
        constructible(cobject_data_view(self.data))
    }

    /// Create a [`CObject`] containing null.
    pub fn null() -> (r: Self)
        ensures
            r@ == CObjectValue::Null,
    {
        CObject { data: CObjectData::Null }
    }

    /// Create a [`CObject`] containing a bool.
    pub fn bool(val: bool) -> (r: Self)
        ensures
            r@ == CObjectValue::Bool(val),
    {
        CObject { data: CObjectData::Bool(val) }
    }

    /// Create a [`CObject`] containing a 32bit signed int.
    pub fn int32(val: i32) -> (r: Self)
        ensures
            r@ == CObjectValue::Int32(val),
    {
        CObject { data: CObjectData::Int32(val) }
    }

    /// Create a [`CObject`] containing a 64bit signed int.
    pub fn int64(val: i64) -> (r: Self)
        ensures
            r@ == CObjectValue::Int64(val),
    {
        CObject { data: CObjectData::Int64(val) }
    }

    /// Create a [`CObject`] containing a 64bit float, given as its IEEE-754
    /// bit pattern (the form in which it crosses the boundary).
    pub fn double_bits(bits: u64) -> (r: Self)
        ensures
            r@ == CObjectValue::DoubleBits(bits),
    {
        CObject { data: CObjectData::DoubleBits(bits) }
    }

    /// Create a [`CObject`] containing a string.
    ///
    /// This clones the string.
    ///
    /// # Errors
    ///
    /// If the string contains NUL bytes an error is returned.
    pub fn string(val: &str) -> (r: Result<Self, EmbeddedNul>)
        ensures
            !contains_nul(val@) ==> (r matches Ok(c) && c@ == CObjectValue::String(val@)),
            contains_nul(val@) ==> r == Err::<Self, EmbeddedNul>(EmbeddedNul),
    {
        proof {
            lemma_first_nul_index(val@);
        }
        let idx = find_nul(val);
        let n = val.unicode_len();
        if idx < n {
            Err(EmbeddedNul)
        } else {
            Ok(CObject { data: CObjectData::String(String::from_str(val)) })
        }
    }

    /// Create a [`CObject`] containing a string.
    ///
    /// Like [`CObject::string()`], but cuts off at the first NUL and always
    /// succeeds.
    pub fn string_lossy(val: &str) -> (r: Self)
        ensures
            r@ == CObjectValue::String(val@.subrange(0, first_nul_index(val@))),
    {
        proof {
            lemma_first_nul_index(val@);
        }
        let idx = find_nul(val);
        let cut = val.substring_char(0, idx);
        CObject { data: CObjectData::String(String::from_str(cut)) }
    }

    /// Create a [`CObject`] containing a [`SendPort`] descriptor.
    pub fn send_port(port: SendPort) -> (r: Self)
        ensures
            r@ == (CObjectValue::SendPort { id: port.raw_port(), origin: port.raw_origin() }),
    {
        let (id, origin) = port.as_raw();
        CObject { data: CObjectData::SendPort { id, origin } }
    }

    /// Create a [`CObject`] containing a [`Capability`].
    pub fn capability(id: Capability) -> (r: Self)
        ensures
            r@ == CObjectValue::Capability(id),
    {
        CObject { data: CObjectData::Capability(id) }
    }

    /// Create a [`CObject`] containing an array of [`CObject`]s, taking
    /// over the obligation to release every element.
    pub fn array(array: Vec<CObject>) -> (r: Self)
        ensures
            r@ == CObjectValue::Array(array@.map_values(|c: CObject| c@)),
    {
        let mut array = array;
        let ghost orig = array@;
        let mut elems: Vec<CObjectData> = Vec::new();
        while array.len() > 0
            invariant
                orig.len() == elems@.len() + array@.len(),
                forall|j: int| 0 <= j < array@.len() ==> array@[j] == orig[elems@.len() + j],
                forall|j: int| #![trigger elems@[j]]
                    0 <= j < elems@.len() ==> cobject_data_view(elems@[j]) == orig[j]@
                        && constructible(cobject_data_view(elems@[j])),
            decreases array@.len(),
        {
            let c = array.remove(0);
            proof {
                use_type_invariant(&c);
            }
            let CObject { data } = c;
            elems.push(data);
        }
        proof {
            lemma_data_seq_view(elems@);
            lemma_constructible_seq(cobject_data_seq_view(elems@));
            assert(cobject_data_seq_view(elems@) =~= orig.map_values(|c: CObject| c@));
        }
        CObject { data: CObjectData::Array(elems) }
    }

    /// Create a [`CObject`] containing typed data.
    ///
    /// This internally delegates to creating external typed data — a
    /// deliberate design choice: the in-place (copied) typed-data variant is
    /// read-only from the runtime and never built here.
    pub fn typed_data(data: TypedData) -> (r: Self)
        ensures
            r@ == CObjectValue::ExternalTypedData(TypedDataPayloadValue::Known(data@), 0),
    {
        Self::from_external_typed_data(ExternalTypedData { data, peer: 0 })
    }

    /// Create a [`CObject`] containing externally typed data.
    ///
    /// The payload's buffer is handed over without copying once the object
    /// is successfully sent; until then, releasing the object yields one
    /// finalizer obligation for the payload's peer token.
    pub fn external_typed_data<CET: CustomExternalTyped>(data: CET) -> (r: Self)
        ensures
            r@ matches CObjectValue::ExternalTypedData(TypedDataPayloadValue::Known(_), _),
    {
        Self::from_external_typed_data(data.into_external_typed_data())
    }

    /// Create a [`CObject`] from an already-built external-typed-data
    /// payload.
    pub fn from_external_typed_data(data: ExternalTypedData) -> (r: Self)
        ensures
            r@ == CObjectValue::ExternalTypedData(
                TypedDataPayloadValue::Known(data.data@),
                data.peer,
            ),
    {
        CObject {
            data: CObjectData::ExternalTypedData(TypedDataPayload::Known(data.data), data.peer),
        }
    }

    /// Release this value locally, running the per-variant cleanup.
    ///
    /// This replaces a destructor, which cannot discharge the finalizer
    /// contract by itself in this model: the returned tokens are the
    /// finalizer obligations — the peer of every externally typed buffer
    /// still owned here, in left-to-right order — which the embedder must
    /// invoke exactly once each. Memory held by the other variants is
    /// released by dropping as usual.
    pub fn dispose(self) -> (fins: Vec<u64>)
        ensures
            fins@ == finalizer_peers(self@),
    {
        let mut this = self;
        let mut data = CObjectData::Null;
        core::mem::swap(&mut data, &mut this.data);
        let mut out: Vec<u64> = Vec::new();
        collect_peers(data, &mut out);
        out
    }

    /// Rewrite this value to Null without yielding any finalizer
    /// obligation.
    pub(crate) fn set_to_null(&mut self)
        ensures
            final(self)@ == CObjectValue::Null,
    {
        *self = CObject { data: CObjectData::Null };
    }

    /// The post-send tombstone write: rewrite every externally typed
    /// payload to Null — those buffers now belong to the runtime —
    /// recursing through arrays, and leave every other variant unchanged.
    pub(crate) fn null_external_typed_objects(&mut self)
        ensures
            final(self)@ == nulled_externals(old(self)@),
    {
        proof {
            use_type_invariant(&*self);
        }
        let mut data = CObjectData::Null;
        core::mem::swap(&mut data, &mut self.data);
        let nulled = nulled_data(data);
        proof {
            lemma_nulled_externals_constructible(cobject_data_view(data));
        }
        *self = CObject { data: nulled };
    }
}

impl Default for CObject {
    /// A null object.
    fn default() -> (r: Self)
        ensures
            r@ == CObjectValue::Null,
    {
        CObject::null()
    }
}

/// Append the finalizer obligations reachable in `d` to `out`.
fn collect_peers(d: CObjectData, out: &mut Vec<u64>)
    ensures
        final(out)@ == old(out)@ + finalizer_peers(d@),
    decreases d,
{
    match d {
        CObjectData::ExternalTypedData(_, peer) => {
            out.push(peer);
        }
        CObjectData::Array(elems) => {
            collect_peers_vec(elems, out);
        }
        _ => {
            assert(out@ =~= out@ + Seq::<u64>::empty());
        }
    }
}

/// Append the finalizer obligations reachable in any element of `elems` to
/// `out`, in order.
fn collect_peers_vec(elems: Vec<CObjectData>, out: &mut Vec<u64>)
    ensures
        final(out)@ == old(out)@ + finalizer_peers_seq(cobject_data_seq_view(elems@)),
    decreases elems@,
{
    let mut elems = elems;
    let ghost orig = elems@;
    proof {
        lemma_data_seq_view(orig);
    }
    if elems.len() == 0 {
        assert(out@ =~= out@ + finalizer_peers_seq(cobject_data_seq_view(orig)));
    } else {
        let e = elems.remove(0);
        collect_peers(e, out);
        collect_peers_vec(elems, out);
        proof {
            let sv = cobject_data_seq_view(orig);
            lemma_data_seq_view(elems@);
            assert(elems@ =~= orig.drop_first());
            lemma_data_seq_view(orig.drop_first());
            assert(sv.first() == cobject_data_view(e));
            assert(sv.drop_first() =~= cobject_data_seq_view(orig.drop_first()));
            assert(out@ =~= old(out)@ + finalizer_peers_seq(sv));
        }
    }
}

/// The value after the tombstone write: every externally typed payload
/// becomes Null, recursing through arrays.
fn nulled_data(d: CObjectData) -> (r: CObjectData)
    ensures
        r@ == nulled_externals(d@),
    decreases d,
{
    match d {
        CObjectData::ExternalTypedData(_, _) => CObjectData::Null,
        CObjectData::Array(elems) => CObjectData::Array(nulled_vec(elems)),
        other => other,
    }
}

/// Element-wise [`nulled_data`].
fn nulled_vec(elems: Vec<CObjectData>) -> (r: Vec<CObjectData>)
    ensures
        cobject_data_seq_view(r@) == nulled_externals_seq(cobject_data_seq_view(elems@)),
    decreases elems@,
{
    let mut elems = elems;
    let ghost orig = elems@;
    if elems.len() == 0 {
        assert(cobject_data_seq_view(elems@) =~= nulled_externals_seq(
            cobject_data_seq_view(orig),
        ));
        elems
    } else {
        let e = elems.remove(0);
        let ne = nulled_data(e);
        let mut rest = nulled_vec(elems);
        let ghost rbefore = rest@;
        rest.insert(0, ne);
        proof {
            let sv = cobject_data_seq_view(orig);
            let dv = cobject_data_seq_view(orig.drop_first());
            lemma_data_seq_view(orig);
            assert(elems@ =~= orig.drop_first());
            lemma_data_seq_view(rest@);
            lemma_data_seq_view(rbefore);
            lemma_data_seq_view(orig.drop_first());
            lemma_nulled_externals_seq(sv);
            lemma_nulled_externals_seq(dv);
            assert forall|i: int| 0 <= i < rest@.len() implies cobject_data_seq_view(rest@)[i]
                == nulled_externals_seq(sv)[i] by {
                if i == 0 {
                    assert(rest@[0] == ne);
                    assert(sv[0] == cobject_data_view(orig[0]));
                } else {
                    assert(rest@[i] == rbefore[i - 1]);
                    assert(cobject_data_seq_view(rbefore)[i - 1] == nulled_externals_seq(dv)[i
                        - 1]);
                    assert(nulled_externals_seq(dv)[i - 1] == nulled_externals(dv[i - 1]));
                    assert(dv[i - 1] == cobject_data_view(orig.drop_first()[i - 1]));
                    assert(orig.drop_first()[i - 1] == orig[i]);
                    assert(sv[i] == cobject_data_view(orig[i]));
                }
            }
            assert(cobject_data_seq_view(rest@) =~= nulled_externals_seq(sv));
        }
        rest
    }
}

} // verus!
