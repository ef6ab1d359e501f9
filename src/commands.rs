//! Operations that every backend shares.
use vstd::prelude::*;

use crate::error::{Error, ErrorKind};
use crate::models::{opt_view, InitializeResponse};

verus! {

/// The message of the deprecated `initialize` operation.
pub open spec fn initialize_deprecated_message() -> Seq<char> {
    "initialize() is deprecated and no longer needed. The billing client initializes automatically."@
}

/// The deprecated explicit initialization: it always fails, telling the
/// caller that no initialization step is needed.
pub fn initialize() -> (r: Result<InitializeResponse, Error>)
    ensures
        r matches Err(e) && e.kind == ErrorKind::InvocationRejected && e.code is None && opt_view(
            e.message,
        ) == Some(initialize_deprecated_message()),
{
    Err(
        Error::new(
            ErrorKind::InvocationRejected,
            None,
            Some(
                String::from_str(
                    "initialize() is deprecated and no longer needed. The billing client initializes automatically.",
                ),
            ),
        ),
    )
}

} // verus!
