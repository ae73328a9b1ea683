//! The permission boundary between the private and the shared namespace.
//!
//! The private app-root needs no consent; touching the network-shared
//! root needs the session's explicit unlock. Each request carries a
//! snapshot of that unlock flag, taken under the session lock when the
//! request's context is built, so the check itself is pure and nothing
//! here ever holds a lock across directory or storage work.

use vstd::prelude::*;

use crate::error::LauncherError;

verus! {

/// Whether a request is allowed to proceed: the shared namespace may be
/// touched only when the session's unlock flag was set.
pub open spec fn permission_allows(is_path_shared: bool, shared_access: bool) -> bool {
    !is_path_shared || shared_access
}

/// Checks a request against the session's shared-access snapshot. A
/// request for the private namespace passes unconditionally; one for the
/// shared namespace passes exactly when the snapshot says the session was
/// unlocked, and fails with `PermissionDenied` otherwise.
pub fn check_shared_access(is_path_shared: bool, shared_access: bool) -> (r: Result<
    (),
    LauncherError,
>)
    ensures
        r is Ok <==> permission_allows(is_path_shared, shared_access),
        r is Err ==> r == Err::<(), LauncherError>(LauncherError::PermissionDenied),
{
    if is_path_shared && !shared_access {
        Err(LauncherError::PermissionDenied)
    } else {
        Ok(())
    }
}

} // verus!
