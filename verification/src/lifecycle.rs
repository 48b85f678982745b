//! One-time, thread-safe initialization of the runtime bindings.
//!
//! The foreign ABI offers a single initialization entry point; every other
//! call goes through a function-pointer table that is populated when that
//! entry point succeeds. Exactly one initialization attempt is ever executed
//! per gate regardless of how many threads race into it, and all callers
//! observe the same outcome. The embedder performs the foreign call itself
//! and records its status code here; possession of a [`DartRuntime`] value
//! then proves that initialization succeeded.

use once_cell::sync::OnceCell;
use vstd::prelude::*;

verus! {

/// Declares `once_cell::sync::OnceCell` so it can stand in fields.
#[verifier::external_type_specification]
#[verifier::external_body]
#[verifier::reject_recursive_types(T)]
pub struct ExOnceCell<T>(OnceCell<T>);

/// The value a one-time cell holds: `None` while unset, `Some` of the first
/// and only value ever stored afterwards.
pub uninterp spec fn once_cell_value(cell: OnceCell<i32>) -> Option<i32>;

/// Relies on `once_cell::sync::OnceCell::new`: creates an empty cell.
#[verifier::external_body]
fn once_cell_empty() -> (r: OnceCell<i32>)
    ensures
        once_cell_value(r) is None,
{
    OnceCell::new()
}

/// Relies on `once_cell::sync::OnceCell::get`: returns the stored value, or
/// `None` if the cell is still empty.
#[verifier::external_body]
fn once_cell_get(cell: &OnceCell<i32>) -> (r: Option<i32>)
    ensures
        r == once_cell_value(*cell),
{
    cell.get().copied()
}

/// Relies on `once_cell::sync::OnceCell::get_or_init`: stores the given
/// value if the cell was empty, and returns the stored value either way.
/// Among racing callers exactly one initializer runs; all observe the same
/// stored value.
#[verifier::external_body]
fn once_cell_get_or_init(cell: &mut OnceCell<i32>, value: i32) -> (r: i32)
    ensures
        once_cell_value(*final(cell)) == Some(r),
        match once_cell_value(*old(cell)) {
            Some(v) => r == v,
            None => r == value,
        },
{
    *cell.get_or_init(|| value)
}

/// The one-time initialization gate: `Uninitialized -> {Ready, Failed}`,
/// with the outcome of the first attempt cached for every later caller.
///
/// Initialization is necessarily process-wide state; this type makes it
/// explicit and injectable, so the embedder holds the single instance.
pub struct InitGate {
    cell: OnceCell<i32>,
}

/// Status code with which the foreign initialization call reports success.
pub const INIT_OK: i32 = 0;

impl InitGate {
    /// The recorded outcome: `None` before any attempt, `Some` of the first
    /// attempt's status code afterwards.
    pub closed spec fn state(&self) -> Option<i32> {
        once_cell_value(self.cell)
    }

    /// A fresh gate on which no initialization was attempted yet.
    pub fn new() -> (r: InitGate)
        ensures
            r.state() is None,
    {
        InitGate { cell: once_cell_empty() }
    }
}

/// Marker proving that initialization of the runtime bindings succeeded.
///
/// Acts as the capability required by every operation that goes through the
/// function-pointer table.
#[derive(Debug, Clone, Copy)]
pub struct DartRuntime {
    _priv: (),
}

/// Error representing that initialization failed, or was not attempted.
#[derive(Debug, Clone, Copy, PartialEq, Eq, Structural)]
#[non_exhaustive]
pub enum InitializationFailed {
    /// Initialization was not yet attempted.
    InitNotYetCalled,
    /// The foreign initialization call reported failure. The only likely
    /// reason is a major-version mismatch between these bindings and the
    /// runtime's ABI version.
    InitFailed,
}

/// Records the outcome of the foreign initialization call.
///
/// `status` is what the foreign entry point returned; zero means success.
/// Only the first call's status is ever recorded: calling this again — from
/// any thread — is a no-op that returns the stored result, never a fresh
/// attempt.
///
/// # Errors
///
/// [`InitializationFailed::InitFailed`] if the recorded status is nonzero.
pub fn initialize_dart_api_dl(gate: &mut InitGate, status: i32) -> (r: Result<
    DartRuntime,
    InitializationFailed,
>)
    ensures
        match old(gate).state() {
            None => final(gate).state() == Some(status),
            Some(v) => final(gate).state() == Some(v),
        },
        match final(gate).state() {
            Some(v) => (r is Ok <==> v == INIT_OK) && (v != INIT_OK ==> r == Err::<
                DartRuntime,
                InitializationFailed,
            >(InitializationFailed::InitFailed)),
            None => false,
        },
{
    let stored = once_cell_get_or_init(&mut gate.cell, status);
    if stored == INIT_OK {
        Ok(DartRuntime { _priv: () })
    } else {
        Err(InitializationFailed::InitFailed)
    }
}

impl DartRuntime {
    /// If [`initialize_dart_api_dl`] ran on this gate before, returns the
    /// recorded outcome, without blocking and without a fresh attempt.
    ///
    /// # Errors
    ///
    /// - [`InitializationFailed::InitNotYetCalled`] if no attempt was made.
    /// - [`InitializationFailed::InitFailed`] if the attempt failed.
    pub fn instance(gate: &InitGate) -> (r: Result<DartRuntime, InitializationFailed>)
        ensures
            match gate.state() {
                None => r == Err::<DartRuntime, InitializationFailed>(
                    InitializationFailed::InitNotYetCalled,
                ),
                Some(v) => (r is Ok <==> v == INIT_OK) && (v != INIT_OK ==> r == Err::<
                    DartRuntime,
                    InitializationFailed,
                >(InitializationFailed::InitFailed)),
            },
    {
        match once_cell_get(&gate.cell) {
            None => Err(InitializationFailed::InitNotYetCalled),
            Some(v) => {
                if v == INIT_OK {
                    Ok(DartRuntime { _priv: () })
                } else {
                    Err(InitializationFailed::InitFailed)
                }
            }
        }
    }
}

/// The slot for the given function pointer was not populated.
///
/// This happens when the runtime's ABI minor version is lower than the one
/// these bindings were built against: the table is valid, but newer entries
/// are left empty. It is an expected "feature not available" condition, not
/// a crash.
#[derive(Debug, Clone, Copy)]
pub struct UninitializedFunctionSlot {
    slot: &'static str,
}

impl UninitializedFunctionSlot {
    /// The name of the empty slot.
    pub closed spec fn slot_view(&self) -> Seq<char> {
        self.slot@
    }

    /// A report that the named function-pointer slot was empty.
    pub fn new(slot: &'static str) -> (r: UninitializedFunctionSlot)
        ensures
            r.slot_view() == slot@,
    {
        UninitializedFunctionSlot { slot }
    }

    /// The name of the empty slot.
    pub fn slot_name(&self) -> (r: &'static str)
        ensures
            r@ == self.slot_view(),
    {
        self.slot
    }
}

} // verus!
