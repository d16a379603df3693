//! A verified model of the runtime bridge at the core of a native-toolkit
//! widget wrapper.
//!
//! The wrapper synthesizes host subclasses at runtime, attaches a pointer-sized
//! "delegate slot" to every instance so that host lifecycle callbacks can reach
//! user code, and hands the user owning widget handles. The pieces modeled and
//! verified here are:
//!
//! - the dynamic subclass registry ([`registry`]): one-shot, idempotent
//!   registration of a host subclass per (widget family, callback type) pair;
//! - the delegate pointer bridge ([`bridge`]): the store / load / unbind
//!   protocol for the per-instance callback slot, with a drop-once guarantee;
//! - widget handles ([`widget`]): owning values that bundle a host object,
//!   optional callback ownership and layout anchors, with detach-on-drop;
//! - the list view and its reusable row vendor ([`listview`]): the
//!   identifier-keyed factory map, the dequeue protocol, and the batch-update
//!   protocol of the host table widget.
//!
//! Host objects are opaque to this crate: they appear as nonzero machine words
//! handed in by the unverified layer that talks to the host runtime. Every
//! decision the wrapper makes — which class to use, whether to re-register,
//! whether a dequeue may allocate, when a row-count change becomes visible —
//! is made by a verified function in this crate.

use vstd::prelude::*;

pub mod bridge;
pub mod listview;
pub mod registry;
pub mod widget;

verus! {

/// Errors surfaced by the bridge layer. Methods that can fail return these
/// explicitly; programming errors are reported, never silently ignored.
#[derive(Debug)]
pub enum BridgeError {
    /// The host runtime refused to register a synthesized subclass.
    HostRuntimeRejected,
    /// A host method reported failure with an attached error object.
    HostOperationFailed { code: i64, message: String },
    /// A dequeue referenced a row identifier that was never registered.
    UnknownRowIdentifier,
    /// A dequeued row's callback type did not match the caller's expectation.
    RowTypeMismatch,
    /// A widget operation was attempted off the designated main thread.
    MainThreadViolation,
}

/// The main-thread guard. The host toolkit mandates that every widget
/// operation run on its designated main thread; the caller reports whether the
/// current thread is that thread, and an operation off it is refused.
pub fn ensure_main_thread(is_main: bool) -> (r: Result<(), BridgeError>)
    ensures
        is_main ==> r == Ok::<(), BridgeError>(()),
        !is_main ==> r == Err::<(), BridgeError>(BridgeError::MainThreadViolation),
{
    if is_main {
        Ok(())
    } else {
        Err(BridgeError::MainThreadViolation)
    }
}

} // verus!
