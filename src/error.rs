//! The closed error taxonomy every backend failure is mapped into.
use vstd::prelude::*;

verus! {

/// The kind of a failure; the taxonomy is closed.
#[derive(Clone, Copy, Debug, PartialEq, Eq, Structural)]
pub enum ErrorKind {
    /// The backend has no native purchasing support at all.
    UnsupportedPlatform,
    /// The environment guard rejected the process (not a packaged bundle).
    EnvironmentInvalid,
    /// The store session could not be created, or its host window was not found.
    SessionUnavailable,
    /// A catalog or entitlement query was rejected by the vendor.
    QueryFailed,
    /// A purchase was requested for an id absent from the catalog.
    ProductNotFound,
    /// The store reported that the purchase was not completed.
    PurchaseIncomplete,
    /// The store reported a network failure during the purchase.
    NetworkError,
    /// The store reported a server failure during the purchase.
    ServerError,
    /// The store reported a purchase outcome that has no other kind.
    PurchaseFailed,
    /// A foreign-bridge response could not be parsed into the expected shape.
    DeserializationError,
    /// A generic bridge or vendor rejection.
    InvocationRejected,
}

/// A typed failure: its kind, an optional machine-readable code and an
/// optional human-readable message.
#[derive(Clone, Debug)]
pub struct Error {
    pub kind: ErrorKind,
    pub code: Option<String>,
    pub message: Option<String>,
}

impl Error {
    /// A failure of `kind` with its code and message.
    pub fn new(kind: ErrorKind, code: Option<String>, message: Option<String>) -> (r: Error)
        ensures
            r.kind == kind,
            r.code == code,
            r.message == message,
    {
        Error { kind, code, message }
    }
}

} // verus!
