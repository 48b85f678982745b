mod data;
mod owned;
mod reference;
mod rust_values;
mod type_enums;

pub use data::{
    cobject_data_seq_view, cobject_data_view, constructible, constructible_seq, finalizer_peers,
    finalizer_peers_seq, lemma_constructible_seq, lemma_data_seq_view,
    lemma_nulled_externals_constructible, lemma_nulled_externals_constructible_seq,
    lemma_nulled_externals_no_peers, lemma_nulled_externals_no_peers_seq,
    lemma_array_depth_nulling, lemma_nulled_externals_seq, lemma_single_destruction,
    nulled_externals, nulled_externals_seq, object_kind, CObjectData,
    CObjectValue, TypedDataPayload, TypedDataPayloadValue,
};
pub use owned::{
    contains_nul, first_nul_index, lemma_first_nul_index, CObject, EmbeddedNul,
};
pub(crate) use owned::find_nul;
pub use reference::{
    as_bool_spec, as_capability_spec, as_double_bits_spec, as_int32_spec, as_int64_spec,
    as_int_spec, as_null_spec, as_string_spec, lemma_read_after_construct, typed_payload_kind,
    typed_payload_matches, CObjectMut, CObjectValuesRef,
};
pub use rust_values::{
    typed_data_kind, Capability, CustomExternalTyped, ExternalTypedData, TypedData, TypedDataValue,
};
pub use type_enums::{
    classify_object_tag, classify_typed_data_tag, lemma_object_tag_round_trip,
    lemma_typed_data_tag_round_trip, lemma_unknown_tags_are_errors, object_type_tag,
    typed_data_type_tag, CObjectType, TypedDataType, UnknownCObjectType, UnknownTypedDataType,
};
