//! Failure containment for runtime-driven callbacks.
//!
//! A handler failure must never unwind across the foreign boundary: doing
//! so is undefined behavior. The catching mechanism itself cannot stand in
//! verified code, so the embedder wraps each handler invocation in its own
//! failure boundary; what is verified here is the conversion of the failure
//! payload into the diagnostic object handed to the failure handler, with
//! its fixed fallback for payloads that are not a recognized string.

use vstd::prelude::*;

use crate::cobject::{first_nul_index, CObject, CObjectValue};

verus! {

/// The diagnostic text used when a failure payload is not a recognized
/// string type.
pub open spec fn fallback_panic_text() -> Seq<char> {
    "panic of unsupported type"@
}

/// Convert a failure payload into the string object handed to the failure
/// handler.
///
/// `message` is the payload's text where the embedder could recognize one
/// (lossily truncated at a NUL, as the foreign string representation
/// demands); an unrecognized payload becomes the fixed fallback text.
pub fn panic_message_object(message: Option<&str>) -> (r: CObject)
    ensures
        message matches Some(s) ==> r@ == CObjectValue::String(
            s@.subrange(0, first_nul_index(s@)),
        ),
        message is None ==> r@ == CObjectValue::String(
            fallback_panic_text().subrange(0, first_nul_index(fallback_panic_text())),
        ),
{
    match message {
        Some(s) => CObject::string_lossy(s),
        None => CObject::string_lossy("panic of unsupported type"),
    }
}

} // verus!
