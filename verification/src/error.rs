//! The error taxonomy shared by every action of the dispatch layer.
//!
//! A failing action reports exactly one of these kinds; no partial
//! response is ever emitted alongside an error.

use vstd::prelude::*;

verus! {

/// One structured failure kind per way an action can go wrong.
#[derive(Clone, Copy, Debug, PartialEq, Eq, Structural)]
pub enum LauncherError {
    /// The shared namespace was requested without a prior session unlock.
    PermissionDenied,
    /// The path string yields no usable target name.
    InvalidPath,
    /// A directory segment of the resolved chain does not exist.
    PathNotFound,
    /// The storage side could not produce the requested bytes or metadata.
    ContentUnavailable,
    /// The action variant is not yet wired to a real collaborator.
    NotImplemented,
}

} // verus!
