//! Send and receive ports: typed wrappers around the runtime's message-port
//! primitives.
//!
//! A send port is an identifier messages are posted to; a receive port is an
//! owned handle whose registered handler the runtime invokes. The foreign
//! calls themselves go through [`DartDlApi`], this library's model of the
//! function-pointer table that initialization populates: the embedder
//! implements it with the real calls, a test harness with a double.

use vstd::prelude::*;
use vstd::string::StrSliceExecFns;

use crate::cobject::{contains_nul, nulled_externals, CObject, CObjectMut};
use crate::lifecycle::{DartRuntime, InitGate, UninitializedFunctionSlot, INIT_OK};

verus! {

/// Raw id of a message port.
pub type DartPortId = i64;

/// The sentinel port id that denotes "no port" (and "somehow bad port").
pub const ILLEGAL_PORT: DartPortId = 0;

/// The function-pointer table the runtime populates at initialization, as
/// seen by this library.
///
/// Each method stands for one foreign call. A populated slot reports the
/// foreign function's own result; an unpopulated slot (possible under a
/// minor-version skew, see [`UninitializedFunctionSlot`]) reports the error
/// instead of being called.
pub trait DartDlApi {
    /// Post an integer message to the port. Stands for the posting slot of
    /// the table; `true` means the runtime accepted the message.
    fn post_integer(&mut self, port: DartPortId, message: i64) -> Result<
        bool,
        UninitializedFunctionSlot,
    >;

    /// Post an object message to the port. `true` means the runtime
    /// accepted the message and now owns every externally typed buffer
    /// inside it.
    fn post_cobject(&mut self, port: DartPortId, cobject: &CObject) -> Result<
        bool,
        UninitializedFunctionSlot,
    >;

    /// Create a native receive port. Returns the new port's id, or
    /// [`ILLEGAL_PORT`] if the runtime refused.
    fn new_native_port(&mut self, name: &str, handle_concurrently: bool) -> Result<
        DartPortId,
        UninitializedFunctionSlot,
    >;

    /// Close a native receive port. `true` means the port was open and is
    /// now closed.
    fn close_native_port(&mut self, port: DartPortId) -> Result<
        bool,
        UninitializedFunctionSlot,
    >;
}

/// The send half of a message port: an identifier you post to.
///
/// A value of this type never wraps the [`ILLEGAL_PORT`] sentinel; the
/// conversion functions return an absent value for it instead.
#[derive(Debug, Clone, Copy, PartialEq, Eq, Structural)]
pub struct SendPort {
    port: DartPortId,
    origin: DartPortId,
}

impl SendPort {
    #[verifier::type_invariant]
    spec fn port_is_legal(self) -> bool {
        self.port != ILLEGAL_PORT
    }

    /// The wrapped port id.
    pub closed spec fn raw_port(&self) -> DartPortId {
        self.port
    }

    /// The wrapped origin id; nearly always [`ILLEGAL_PORT`], i.e. unset.
    pub closed spec fn raw_origin(&self) -> DartPortId {
        self.origin
    }

    /// Return the underlying port ids of this `SendPort`.
    ///
    /// The first id is the port id and the second the origin id, which most
    /// of the time equals [`ILLEGAL_PORT`].
    pub fn as_raw(&self) -> (r: (DartPortId, DartPortId))
        ensures
            r == (self.raw_port(), self.raw_origin()),
            self.raw_port() != ILLEGAL_PORT,
    {
        proof {
            use_type_invariant(&*self);
        }
        (self.port, self.origin)
    }
}

impl DartRuntime {
    /// Wraps the port id.
    ///
    /// Returns `None` if `port == ILLEGAL_PORT`: that sentinel generally
    /// means both "no port" and "somehow bad port", so it is an absent
    /// value, not an error and never a valid port.
    pub fn send_port_from_raw(&self, port: DartPortId) -> (r: Option<SendPort>)
        ensures
            r is Some <==> port != ILLEGAL_PORT,
            r matches Some(p) ==> p.raw_port() == port && p.raw_origin() == ILLEGAL_PORT,
    {
        self.send_port_from_raw_with_origin(port, ILLEGAL_PORT)
    }

    /// Wraps the port id, keeping the given origin id.
    ///
    /// Returns `None` if `port == ILLEGAL_PORT`, as with
    /// [`DartRuntime::send_port_from_raw`]. The origin id is kept as-is:
    /// an origin of [`ILLEGAL_PORT`] simply means "unset", which is how it
    /// arrives in practice.
    pub fn send_port_from_raw_with_origin(&self, port: DartPortId, origin: DartPortId) -> (r:
        Option<SendPort>)
        ensures
            r is Some <==> port != ILLEGAL_PORT,
            r matches Some(p) ==> p.raw_port() == port && p.raw_origin() == origin,
    {
        if port != ILLEGAL_PORT {
            Some(SendPort { port, origin })
        } else {
            None
        }
    }

    /// Wrap a raw port id as a [`NativeRecvPort`] guard.
    ///
    /// Returns `None` if `port == ILLEGAL_PORT`.
    pub fn native_recv_port_from_raw(&self, port: DartPortId) -> (r: Option<NativeRecvPort>)
        ensures
            r is Some <==> port != ILLEGAL_PORT,
            r matches Some(p) ==> p.port().raw_port() == port && p.port().raw_origin()
                == ILLEGAL_PORT,
    {
        match self.send_port_from_raw(port) {
            Some(sp) => Some(NativeRecvPort(sp)),
            None => None,
        }
    }
}

/// Handle for a native receive port: the owned end of an inbound channel.
///
/// Closing is explicit ([`NativeRecvPort::close`]); [`NativeRecvPort::leak`]
/// detaches the handle instead, transferring lifetime responsibility to the
/// caller.
#[derive(Debug)]
pub struct NativeRecvPort(SendPort);

impl NativeRecvPort {
    /// The send half of this port.
    pub closed spec fn port(&self) -> SendPort {
        self.0
    }

    /// Detach the port from this handle so it is never closed through it.
    pub fn leak(self) -> (r: SendPort)
        ensures
            r == self.port(),
    {
        self.0
    }

    /// The send half of this port, for posting back to it.
    pub fn as_send_port(&self) -> (r: SendPort)
        ensures
            r == self.port(),
    {
        self.0
    }

    /// Close the port.
    ///
    /// The close result is ignored: a destructor would have nothing
    /// meaningful to do with it either. Messages already enqueued may or
    /// may not still be delivered; callers must tolerate a handler firing
    /// on an about-to-close port.
    pub fn close<A: DartDlApi>(self, api: &mut A) {
        let (port, _) = self.0.as_raw();
        let _ = api.close_native_port(port);
    }
}

/// Posting a message on a port failed.
#[derive(Debug, Clone, Copy, PartialEq, Eq, Structural)]
pub struct PostingMessageFailed;

/// The creation of a native receive port failed.
#[derive(Debug)]
pub enum PortCreationFailed {
    /// The name of the port contained a NUL byte.
    NulInName,
    /// The runtime refused to create the port.
    DartFailed,
    /// A supposedly unreachable condition was reached: the port-creation
    /// function slot was not populated. Normally a broken invariant would
    /// panic, but panics near the foreign boundary are a problem, so it is
    /// an error variant instead.
    Unreachable(UninitializedFunctionSlot),
}

/// What a raw posting outcome means: only an affirmative `true` from a
/// populated function slot is success; a refusal or an unpopulated slot is
/// the posting error.
pub fn post_outcome(raw: Result<bool, UninitializedFunctionSlot>) -> (r: Result<
    (),
    PostingMessageFailed,
>)
    ensures
        (r is Ok) <==> raw == Ok::<bool, UninitializedFunctionSlot>(true),
        (r is Err) ==> r == Err::<(), PostingMessageFailed>(PostingMessageFailed),
{
    match raw {
        Ok(true) => Ok(()),
        Ok(false) => Err(PostingMessageFailed),
        Err(_) => Err(PostingMessageFailed),
    }
}

impl SendPort {
    /// Sends the given integer to this port.
    ///
    /// Uses the runtime's dedicated integer-posting call instead of
    /// creating an integer object.
    ///
    /// # Errors
    ///
    /// If posting the message failed; whether the runtime accepts it is the
    /// runtime's own decision (see [`post_outcome`]).
    pub fn post_integer<A: DartDlApi>(&self, api: &mut A, message: i64) -> Result<
        (),
        PostingMessageFailed,
    > {
        let (port, _) = self.as_raw();
        post_outcome(api.post_integer(port, message))
    }

    /// Sends the given [`CObject`] to this port.
    ///
    /// For data which is not externally typed the runtime takes a copy and
    /// the object stays unchanged. Externally typed buffers are moved: iff
    /// the send succeeded, the local value is rewritten so that every
    /// externally typed payload — however deeply nested inside arrays —
    /// becomes Null, which keeps the finalizer from ever running locally a
    /// second time. If sending fails the object stays unchanged, still
    /// owned by the caller for retry or disposal.
    ///
    /// # Errors
    ///
    /// If posting the message failed.
    pub fn post_cobject<A: DartDlApi>(&self, api: &mut A, cobject: &mut CObject) -> (r: Result<
        (),
        PostingMessageFailed,
    >)
        ensures
            r is Ok ==> final(cobject)@ == nulled_externals(old(cobject)@),
            r is Err ==> final(cobject)@ == old(cobject)@,
    {
        let (port, _) = self.as_raw();
        match post_outcome(api.post_cobject(port, cobject)) {
            Ok(()) => {
                cobject.null_external_typed_objects();
                Ok(())
            }
            Err(e) => Err(e),
        }
    }
}

/// Static rust-safe version of a native message handler.
///
/// The runtime invokes the handler on an unspecified thread — or on several
/// at once if [`NativeMessageHandler::concurrent_handling`] allows it —
/// with a value that is valid only for the duration of the call and must
/// not be freed by the handler.
pub trait NativeMessageHandler {
    /// If `false` the runtime will only call the handler from one thread at
    /// a time. It still may call it from different threads over time, just
    /// not at the same time.
    fn concurrent_handling() -> bool;

    /// A name used to set up the port, mainly for debugging purposes.
    ///
    /// It must not contain a NUL byte, or port creation fails.
    fn name() -> &'static str;

    /// Called when handling a message.
    ///
    /// `ourself` can be used to close the port (though closing might not be
    /// instant, and the runtime might still deliver already-enqueued
    /// messages; do not rely on currently observed behavior).
    fn handle_message(rt: DartRuntime, ourself: &NativeRecvPort, data: CObjectMut<'_>);

    /// Called if [`NativeMessageHandler::handle_message`] failed.
    ///
    /// It is called with the same object as `handle_message`, as well as
    /// the failure converted to a [`CObject`], which allows sending the
    /// diagnostic back through a port contained in the original message.
    fn handle_panic(
        rt: DartRuntime,
        ourself: &NativeRecvPort,
        data: CObjectMut<'_>,
        panic_obj: CObject,
    );
}

impl DartRuntime {
    /// Creates a new [`NativeRecvPort`] with the given name and concurrency
    /// mode.
    ///
    /// By sending the port id of this port to the runtime's side, messages
    /// can then be sent back here.
    ///
    /// # Errors
    ///
    /// - [`PortCreationFailed::NulInName`] exactly when the name holds a
    ///   NUL byte.
    /// - [`PortCreationFailed::DartFailed`] if the runtime answered with
    ///   the illegal port.
    /// - [`PortCreationFailed::Unreachable`] if the creation slot was not
    ///   populated.
    pub fn native_recv_port_with_name<A: DartDlApi>(
        &self,
        api: &mut A,
        name: &str,
        handle_concurrently: bool,
    ) -> (r: Result<NativeRecvPort, PortCreationFailed>)
        ensures
            contains_nul(name@) <==> r matches Err(PortCreationFailed::NulInName),
            r matches Ok(p) ==> p.port().raw_origin() == ILLEGAL_PORT,
    {
        proof {
            crate::cobject::lemma_first_nul_index(name@);
        }
        let idx = crate::cobject::find_nul(name);
        if idx < name.unicode_len() {
            return Err(PortCreationFailed::NulInName);
        }
        match api.new_native_port(name, handle_concurrently) {
            Err(slot) => Err(PortCreationFailed::Unreachable(slot)),
            Ok(port) => match self.native_recv_port_from_raw(port) {
                Some(p) => Ok(p),
                None => Err(PortCreationFailed::DartFailed),
            },
        }
    }

    /// Recover the context a message callback runs in from the raw
    /// destination port id: the runtime token, and the handle of the port
    /// the message arrived on.
    ///
    /// Returns `None` — the callback must then return quietly, with no
    /// foreign-visible side effect, since panicking inside a foreign
    /// callback is unsound — if initialization did not succeed or the port
    /// id is the illegal sentinel; both are unreachable in correct usage
    /// but must degrade safely.
    pub fn recover_dispatch_context(gate: &InitGate, ourself_id: DartPortId) -> (r: Option<
        (DartRuntime, NativeRecvPort),
    >)
        ensures
            (r is Some) <==> (gate.state() matches Some(v) && v == INIT_OK && ourself_id
                != ILLEGAL_PORT),
            r matches Some((_, p)) ==> p.port().raw_port() == ourself_id && p.port().raw_origin()
                == ILLEGAL_PORT,
    {
        match DartRuntime::instance(gate) {
            Ok(rt) => match rt.native_recv_port_from_raw(ourself_id) {
                Some(p) => Some((rt, p)),
                None => None,
            },
            Err(_) => None,
        }
    }

    /// A rust-safe way to create a new [`NativeRecvPort`] handled by `N`.
    ///
    /// Take a look at the [`NativeMessageHandler`] trait for details; the
    /// embedder registers the actual callback that dispatches to `N` when
    /// it implements [`DartDlApi::new_native_port`].
    ///
    /// # Errors
    ///
    /// As for [`DartRuntime::native_recv_port_with_name`].
    pub fn native_recv_port<N: NativeMessageHandler, A: DartDlApi>(&self, api: &mut A) -> (r:
        Result<NativeRecvPort, PortCreationFailed>)
        ensures
            r matches Ok(p) ==> p.port().raw_origin() == ILLEGAL_PORT,
    {
        let name = N::name();
        let handle_concurrently = N::concurrent_handling();
        self.native_recv_port_with_name(api, name, handle_concurrently)
    }
}

} // verus!
