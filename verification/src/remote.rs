//! Errors the remote channel service can report. Every failure is surfaced
//! to the invoker verbatim; nothing here is retried, since retrying deletes
//! or creates risks doing the irreversible work twice.

use vstd::prelude::*;

verus! {

/// A failure returned by the remote channel service.
#[derive(Clone, Copy, Debug, PartialEq, Eq, Structural)]
pub enum RemoteError {
    PermissionDenied,
    NotFound,
    RateLimited,
    NetworkFault,
}

} // verus!
