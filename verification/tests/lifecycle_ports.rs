//! Tests for the initialization gate and the port conversions.

use dart_api_dl::cobject::CObject;
use dart_api_dl::ports::{
    DartDlApi, DartPortId, NativeRecvPort, PortCreationFailed, PostingMessageFailed, SendPort,
    ILLEGAL_PORT,
};
use dart_api_dl::{
    initialize_dart_api_dl, DartRuntime, InitGate, InitializationFailed, UninitializedFunctionSlot,
};

fn runtime() -> DartRuntime {
    let mut gate = InitGate::new();
    initialize_dart_api_dl(&mut gate, 0).unwrap()
}

fn assert_send_sync<T: Send + Sync>() {}

fn assert_copy_clone<T: Copy + Clone>() {}

#[test]
fn lifecycle_test_static_constraints() {
    assert_send_sync::<DartRuntime>();
}

#[test]
fn livecycle_test_static_constraints() {
    assert_send_sync::<DartRuntime>();
    assert_send_sync::<InitGate>();
}

#[test]
fn port_test_static_assertions() {
    assert_copy_clone::<SendPort>();
    assert_send_sync::<SendPort>();
    assert_send_sync::<NativeRecvPort>();
    let p: DartPortId = 7i64;
    let q: i64 = p;
    assert_eq!(q, 7);
}

#[test]
fn ports_test_static_assertions() {
    assert_copy_clone::<SendPort>();
    assert_send_sync::<SendPort>();
    assert_send_sync::<NativeRecvPort>();
    let p: DartPortId = 9i64;
    let q: i64 = p;
    assert_eq!(q, 9);
}

#[test]
fn instance_before_initialize_reports_not_yet_called() {
    let gate = InitGate::new();
    assert_eq!(
        DartRuntime::instance(&gate).map(|_| ()),
        Err(InitializationFailed::InitNotYetCalled)
    );
}

#[test]
fn initialize_success_is_cached() {
    let mut gate = InitGate::new();
    assert!(initialize_dart_api_dl(&mut gate, 0).is_ok());
    assert!(DartRuntime::instance(&gate).is_ok());
    // A later attempt — even one reporting failure — is a no-op returning
    // the stored outcome, never a fresh attempt.
    assert!(initialize_dart_api_dl(&mut gate, 1).is_ok());
    assert!(DartRuntime::instance(&gate).is_ok());
}

#[test]
fn initialize_failure_is_cached() {
    let mut gate = InitGate::new();
    assert_eq!(
        initialize_dart_api_dl(&mut gate, -1).map(|_| ()),
        Err(InitializationFailed::InitFailed)
    );
    assert_eq!(
        DartRuntime::instance(&gate).map(|_| ()),
        Err(InitializationFailed::InitFailed)
    );
    // The stored failure also wins over a later "successful" status.
    assert_eq!(
        initialize_dart_api_dl(&mut gate, 0).map(|_| ()),
        Err(InitializationFailed::InitFailed)
    );
}

#[test]
fn dispatch_context_recovery_degrades_quietly() {
    let mut gate = InitGate::new();
    // Before any attempt: no context.
    assert!(DartRuntime::recover_dispatch_context(&gate, 5).is_none());
    initialize_dart_api_dl(&mut gate, 0).unwrap();
    // Illegal destination port: no context.
    assert!(DartRuntime::recover_dispatch_context(&gate, ILLEGAL_PORT).is_none());
    let (_rt, port) = DartRuntime::recover_dispatch_context(&gate, 5).unwrap();
    assert_eq!(port.leak().as_raw(), (5, ILLEGAL_PORT));
    // A failed initialization yields no context either.
    let mut failed = InitGate::new();
    assert!(initialize_dart_api_dl(&mut failed, 3).is_err());
    assert!(DartRuntime::recover_dispatch_context(&failed, 5).is_none());
}

#[test]
fn illegal_port_becomes_absent_send_port() {
    let rt = runtime();
    assert!(rt.send_port_from_raw(ILLEGAL_PORT).is_none());
    assert!(rt.send_port_from_raw_with_origin(ILLEGAL_PORT, 3).is_none());
    assert!(rt.native_recv_port_from_raw(ILLEGAL_PORT).is_none());
}

#[test]
fn legal_port_ids_are_wrapped() {
    let rt = runtime();
    let p = rt.send_port_from_raw(17).unwrap();
    assert_eq!(p.as_raw(), (17, ILLEGAL_PORT));
    let p = rt.send_port_from_raw_with_origin(17, 4).unwrap();
    assert_eq!(p.as_raw(), (17, 4));
    let r = rt.native_recv_port_from_raw(23).unwrap();
    assert_eq!(r.leak().as_raw(), (23, ILLEGAL_PORT));
}

/// A double whose port-creation slot answers as scripted.
struct PortApi {
    answer: Result<DartPortId, UninitializedFunctionSlot>,
    closed: Vec<DartPortId>,
}

impl DartDlApi for PortApi {
    fn post_integer(
        &mut self,
        _port: DartPortId,
        _message: i64,
    ) -> Result<bool, UninitializedFunctionSlot> {
        Ok(true)
    }

    fn post_cobject(
        &mut self,
        _port: DartPortId,
        _cobject: &CObject,
    ) -> Result<bool, UninitializedFunctionSlot> {
        Ok(true)
    }

    fn new_native_port(
        &mut self,
        _name: &str,
        _handle_concurrently: bool,
    ) -> Result<DartPortId, UninitializedFunctionSlot> {
        self.answer
    }

    fn close_native_port(&mut self, port: DartPortId) -> Result<bool, UninitializedFunctionSlot> {
        self.closed.push(port);
        Ok(true)
    }
}

#[test]
fn recv_port_creation_rejects_nul_in_name() {
    let rt = runtime();
    let mut api = PortApi { answer: Ok(8), closed: Vec::new() };
    let r = rt.native_recv_port_with_name(&mut api, "bad\0name", false);
    assert!(matches!(r, Err(PortCreationFailed::NulInName)));
}

#[test]
fn recv_port_creation_maps_illegal_answer_to_error() {
    let rt = runtime();
    let mut api = PortApi { answer: Ok(ILLEGAL_PORT), closed: Vec::new() };
    let r = rt.native_recv_port_with_name(&mut api, "adder", false);
    assert!(matches!(r, Err(PortCreationFailed::DartFailed)));
}

#[test]
fn recv_port_creation_reports_unpopulated_slot() {
    let rt = runtime();
    let mut api = PortApi {
        answer: Err(UninitializedFunctionSlot::new("new_native_port")),
        closed: Vec::new(),
    };
    let r = rt.native_recv_port_with_name(&mut api, "adder", true);
    match r {
        Err(PortCreationFailed::Unreachable(slot)) => {
            assert_eq!(slot.slot_name(), "new_native_port");
        }
        _ => panic!("expected the unreachable variant"),
    }
}

#[test]
fn recv_port_close_goes_through_the_table() {
    let rt = runtime();
    let mut api = PortApi { answer: Ok(31), closed: Vec::new() };
    let port = rt.native_recv_port_with_name(&mut api, "worker", false).unwrap();
    assert_eq!(port.as_send_port().as_raw(), (31, ILLEGAL_PORT));
    port.close(&mut api);
    assert_eq!(api.closed, vec![31]);
}

/// A double standing for a runtime that refuses every post.
struct Refusing;

impl DartDlApi for Refusing {
    fn post_integer(
        &mut self,
        _port: DartPortId,
        _message: i64,
    ) -> Result<bool, UninitializedFunctionSlot> {
        Ok(false)
    }

    fn post_cobject(
        &mut self,
        _port: DartPortId,
        _cobject: &CObject,
    ) -> Result<bool, UninitializedFunctionSlot> {
        Err(UninitializedFunctionSlot::new("post_cobject"))
    }

    fn new_native_port(
        &mut self,
        _name: &str,
        _handle_concurrently: bool,
    ) -> Result<DartPortId, UninitializedFunctionSlot> {
        Ok(ILLEGAL_PORT)
    }

    fn close_native_port(
        &mut self,
        _port: DartPortId,
    ) -> Result<bool, UninitializedFunctionSlot> {
        Ok(false)
    }
}

#[test]
fn posting_to_refusing_runtime_fails() {
    let rt = runtime();
    let port = rt.send_port_from_raw(3).unwrap();
    let mut api = Refusing;
    assert_eq!(port.post_integer(&mut api, 4), Err(PostingMessageFailed));
    let mut obj = CObject::int64(4);
    assert_eq!(port.post_cobject(&mut api, &mut obj), Err(PostingMessageFailed));
}
