//! The bridge's error taxonomy.

use vstd::prelude::*;

verus! {

/// Everything that can go wrong inside the bridge.
///
/// `EncodingError` and `UnknownMessage` originate from untrusted external
/// input and are recoverable: callers get them back as typed results.
/// `DuplicateSubscription` and `LifecycleViolation` indicate that the plugin
/// or the host misused the bridge's own contract; the unverified shell is
/// expected to abort on them rather than continue in an unknown state.
/// `HostApiUnavailable` marks an access to the secondary domain API before
/// the bootstrap handshake completed or after unload.
#[derive(Clone, Copy, Debug, PartialEq, Eq, Structural)]
pub enum BridgeError {
    /// A string could not cross the C boundary (embedded null byte).
    EncodingError,
    /// The host rejected a message-id lookup.
    UnknownMessage,
    /// A second closure was registered for a message id that already has one.
    DuplicateSubscription,
    /// The secondary domain API was used before bootstrap or after unload.
    HostApiUnavailable,
    /// `load` was called while loaded, or `unload` while unloaded.
    LifecycleViolation,
}

impl BridgeError {
    /// A short, stable name for the error, for logs and messages.
    pub fn describe(&self) -> (r: &'static str)
        ensures
            r@ == match *self {
                BridgeError::EncodingError => "embedded null byte in string"@,
                BridgeError::UnknownMessage => "host rejected message lookup"@,
                BridgeError::DuplicateSubscription => "message id already subscribed"@,
                BridgeError::HostApiUnavailable => "host api not available"@,
                BridgeError::LifecycleViolation => "load/unload called in wrong state"@,
            },
    {
        match *self {
            BridgeError::EncodingError => "embedded null byte in string",
            BridgeError::UnknownMessage => "host rejected message lookup",
            BridgeError::DuplicateSubscription => "message id already subscribed",
            BridgeError::HostApiUnavailable => "host api not available",
            BridgeError::LifecycleViolation => "load/unload called in wrong state",
        }
    }
}

} // verus!
