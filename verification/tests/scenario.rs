//! End-to-end scenario: a command message is read through the view layer,
//! the answer is posted back through a double standing in for the runtime's
//! post primitive; plus the failure-payload conversion.

use dart_api_dl::cobject::CObject;
use dart_api_dl::panic::panic_message_object;
use dart_api_dl::ports::{DartDlApi, DartPortId};
use dart_api_dl::{initialize_dart_api_dl, DartRuntime, InitGate, UninitializedFunctionSlot};

fn runtime() -> DartRuntime {
    let mut gate = InitGate::new();
    initialize_dart_api_dl(&mut gate, 0).unwrap()
}

/// A double standing in for the runtime's post primitive: it accepts every
/// message and records the integers it saw.
struct RecordingApi {
    integers: Vec<(DartPortId, i64)>,
}

impl DartDlApi for RecordingApi {
    fn post_integer(
        &mut self,
        port: DartPortId,
        message: i64,
    ) -> Result<bool, UninitializedFunctionSlot> {
        self.integers.push((port, message));
        Ok(true)
    }

    fn post_cobject(
        &mut self,
        _port: DartPortId,
        _cobject: &CObject,
    ) -> Result<bool, UninitializedFunctionSlot> {
        Ok(true)
    }

    fn new_native_port(
        &mut self,
        _name: &str,
        _handle_concurrently: bool,
    ) -> Result<DartPortId, UninitializedFunctionSlot> {
        Ok(77)
    }

    fn close_native_port(&mut self, _port: DartPortId) -> Result<bool, UninitializedFunctionSlot> {
        Ok(true)
    }
}

#[test]
fn add_command_round_trip() {
    let rt = runtime();
    let mut api = RecordingApi { integers: Vec::new() };

    // The message as the runtime would deliver it: a command array.
    let mut msg = CObject::array(vec![
        CObject::string("add").unwrap(),
        CObject::int64(3),
        CObject::int64(4),
    ]);
    let view = msg.as_mut();
    let slice = view.as_array(rt).unwrap();

    // A handler reading element 0 as string must get "add"...
    assert_eq!(slice[0].as_string(rt), Some("add"));
    // ...and elements 1 and 2 read as int must yield 3 and 4.
    let a = slice[1].as_int(rt).unwrap();
    let b = slice[2].as_int(rt).unwrap();
    assert_eq!((a, b), (3, 4));

    // Computing and posting the answer back through a captured send port
    // must be observable by the double standing in for the post primitive.
    let respond_to = rt.send_port_from_raw(55).unwrap();
    assert!(respond_to.post_integer(&mut api, a + b).is_ok());
    assert_eq!(api.integers, vec![(55, 7)]);
}

#[test]
fn mixed_width_integers_read_as_int() {
    let rt = runtime();
    let mut msg = CObject::array(vec![CObject::int32(3), CObject::int64(4)]);
    let view = msg.as_mut();
    let slice = view.as_array(rt).unwrap();
    assert_eq!(slice[0].as_int(rt), Some(3));
    assert_eq!(slice[1].as_int(rt), Some(4));
}

#[test]
fn panic_payload_becomes_string_object() {
    let rt = runtime();
    let mut diag = panic_message_object(Some("hy there"));
    assert_eq!(diag.as_mut().as_string(rt), Some("hy there"));
}

#[test]
fn panic_payload_with_nul_is_truncated() {
    let rt = runtime();
    let mut diag = panic_message_object(Some("boom\0tail"));
    assert_eq!(diag.as_mut().as_string(rt), Some("boom"));
}

#[test]
fn unrecognized_panic_payload_becomes_fixed_fallback() {
    let rt = runtime();
    let mut diag = panic_message_object(None);
    assert_eq!(diag.as_mut().as_string(rt), Some("panic of unsupported type"));
}
