//! Tests for constructing owned values and reading them back through views.

use dart_api_dl::cobject::{
    CObject, CObjectData, CObjectMut, CObjectType, TypedData, TypedDataPayload, TypedDataType,
    UnknownCObjectType, UnknownTypedDataType,
};
use dart_api_dl::{initialize_dart_api_dl, DartRuntime, InitGate};

fn runtime() -> DartRuntime {
    let mut gate = InitGate::new();
    initialize_dart_api_dl(&mut gate, 0).unwrap()
}

#[test]
fn read_after_construct_null() {
    let rt = runtime();
    let mut c = CObject::null();
    assert_eq!(c.as_mut().as_null(rt), Some(()));
    assert_eq!(c.as_mut().as_bool(rt), None);
    assert_eq!(c.as_mut().object_type(), Ok(CObjectType::Null));
}

#[test]
fn read_after_construct_bool() {
    let rt = runtime();
    let mut c = CObject::bool(true);
    assert_eq!(c.as_mut().as_bool(rt), Some(true));
    assert_eq!(c.as_mut().as_null(rt), None);
    let mut c = CObject::bool(false);
    assert_eq!(c.as_mut().as_bool(rt), Some(false));
}

#[test]
fn read_after_construct_ints() {
    let rt = runtime();
    let mut c = CObject::int32(42);
    assert_eq!(c.as_mut().as_int32(rt), Some(42));
    assert_eq!(c.as_mut().as_int64(rt), None);
    assert_eq!(c.as_mut().as_int(rt), Some(42));

    let mut c = CObject::int64(-7);
    assert_eq!(c.as_mut().as_int64(rt), Some(-7));
    assert_eq!(c.as_mut().as_int32(rt), None);
    assert_eq!(c.as_mut().as_int(rt), Some(-7));
}

#[test]
fn read_after_construct_double_bits() {
    let rt = runtime();
    let bits: u64 = 0x400921FB54442D18; // some fixed 64-bit pattern
    let mut c = CObject::double_bits(bits);
    assert_eq!(c.as_mut().as_double_bits(rt), Some(bits));
    assert_eq!(c.as_mut().object_type(), Ok(CObjectType::Double));
}

#[test]
fn read_after_construct_string() {
    let rt = runtime();
    let mut c = CObject::string("abc").unwrap();
    assert_eq!(c.as_mut().as_string(rt), Some("abc"));
    assert_eq!(c.as_mut().object_type(), Ok(CObjectType::String));
}

#[test]
fn read_after_construct_capability() {
    let rt = runtime();
    let mut c = CObject::capability(99);
    assert_eq!(c.as_mut().as_capability(rt), Some(99));
}

#[test]
fn read_after_construct_send_port() {
    let rt = runtime();
    let port = rt.send_port_from_raw(17).unwrap();
    let mut c = CObject::send_port(port);
    let got = c.as_mut().as_send_port(rt).unwrap().unwrap();
    assert_eq!(got.as_raw(), (17, 0));
}

#[test]
fn read_after_construct_array() {
    let rt = runtime();
    let elems = vec![CObject::int64(1), CObject::bool(true), CObject::null()];
    let mut c = CObject::array(elems);
    let view = c.as_mut();
    let arr = view.as_array(rt).unwrap();
    assert_eq!(arr.len(), 3);
    assert_eq!(arr[0].as_int64(rt), Some(1));
    assert_eq!(arr[1].as_bool(rt), Some(true));
    assert_eq!(arr[2].as_null(rt), Some(()));
}

#[test]
fn string_rejects_embedded_nul() {
    let rt = runtime();
    assert!(CObject::string("a\0b").is_err());
    assert!(CObject::string("\0").is_err());
    let mut ok = CObject::string("ab").unwrap();
    assert_eq!(ok.as_mut().as_string(rt), Some("ab"));
}

#[test]
fn string_lossy_truncates_at_first_nul() {
    let rt = runtime();
    let mut c = CObject::string_lossy("a\0b");
    assert_eq!(c.as_mut().as_string(rt), Some("a"));
    let mut c = CObject::string_lossy("no nul here");
    assert_eq!(c.as_mut().as_string(rt), Some("no nul here"));
    let mut c = CObject::string_lossy("\0tail");
    assert_eq!(c.as_mut().as_string(rt), Some(""));
}

#[test]
fn typed_data_reports_its_kind() {
    let td = TypedData::Uint8(vec![1, 2, 3]);
    assert_eq!(td.data_type(), TypedDataType::Uint8);
    assert_eq!(TypedData::Int64(vec![]).data_type(), TypedDataType::Int64);
    assert_eq!(
        TypedData::Float64(vec![0x3FF0000000000000]).data_type(),
        TypedDataType::Float64
    );
    assert_eq!(
        TypedData::Int32x4(vec![(1, 2, 3, 4)]).data_type(),
        TypedDataType::Int32x4
    );
}

#[test]
fn typed_data_object_reads_back() {
    let rt = runtime();
    let mut c = CObject::typed_data(TypedData::Uint8(vec![9, 8]));
    assert_eq!(c.as_mut().object_type(), Ok(CObjectType::ExternalTypedData));
    assert_eq!(c.as_mut().typed_data_type(), Some(Ok(TypedDataType::Uint8)));
    let view = c.as_mut();
    let (data, external) = view.as_typed_data(rt).unwrap();
    assert!(external);
    match data.unwrap() {
        TypedData::Uint8(v) => assert_eq!(v, &vec![9, 8]),
        _ => panic!("wrong element kind"),
    }
}

#[test]
fn received_in_place_typed_data_reads_like_external() {
    let rt = runtime();
    // A value as the runtime would hand it over: in-place typed data,
    // which this library never constructs itself.
    let data = CObjectData::TypedData(TypedDataPayload::Known(TypedData::Int16(vec![-5, 6])));
    let view = CObjectMut::from_data(&data);
    assert_eq!(view.object_type(), Ok(CObjectType::TypedData));
    assert_eq!(view.typed_data_type(), Some(Ok(TypedDataType::Int16)));
    let (payload, external) = view.as_typed_data(rt).unwrap();
    assert!(!external);
    match payload.unwrap() {
        TypedData::Int16(v) => assert_eq!(v, &vec![-5, 6]),
        _ => panic!("wrong element kind"),
    }
}

#[test]
fn received_unknown_element_kind_is_typed_error() {
    let rt = runtime();
    let data = CObjectData::TypedData(TypedDataPayload::Unknown(15));
    let view = CObjectMut::from_data(&data);
    assert_eq!(view.typed_data_type(), Some(Err(UnknownTypedDataType(15))));
    let (payload, external) = view.as_typed_data(rt).unwrap();
    assert!(!external);
    match payload {
        Err(e) => assert_eq!(e, UnknownTypedDataType(15)),
        Ok(_) => panic!("element kind should be unknown"),
    }
}

#[test]
fn received_unknown_tag_is_typed_error() {
    let rt = runtime();
    let data = CObjectData::Unknown(12);
    let view = CObjectMut::from_data(&data);
    assert_eq!(view.object_type(), Err(UnknownCObjectType(12)));
    assert!(view.value_ref(rt).is_err());
    assert_eq!(view.as_bool(rt), None);
    assert_eq!(view.as_null(rt), None);
}

#[test]
fn received_send_port_with_illegal_id_reads_as_absent() {
    let rt = runtime();
    let data = CObjectData::SendPort { id: 0, origin: 0 };
    let view = CObjectMut::from_data(&data);
    assert_eq!(view.as_send_port(rt), Some(None));
}

#[test]
fn default_is_null() {
    let rt = runtime();
    let mut c = CObject::default();
    assert_eq!(c.as_mut().as_null(rt), Some(()));
}

#[test]
fn reborrow_reads_the_same_value() {
    let rt = runtime();
    let mut c = CObject::int32(5);
    let view = c.as_mut();
    let re = view.reborrow();
    assert_eq!(re.as_int32(rt), Some(5));
    assert_eq!(view.as_int32(rt), Some(5));
}
