//! Laws of the dispatch layer, stated over [`get_file_outcome`] — the
//! one spec function every execution is proved equal to.

use vstd::prelude::*;

use crate::action::{get_file_outcome, GetFile, RequestContext};
use crate::error::LauncherError;
use crate::path::path_tokens;
use crate::permission::permission_allows;
use crate::response::ResponseModel;

verus! {

/// A permitted request whose path tokenizes to no segments fails with
/// `InvalidPath`, and does so without consulting the directory graph:
/// the outcome is the same against any graph snapshot.
pub proof fn lemma_empty_path_is_invalid(req: GetFile, ctx: RequestContext, other: RequestContext)
    requires
        permission_allows(req.is_path_shared, ctx.shared_access),
        path_tokens(req.file_path@, false).len() == 0,
        other.shared_access == ctx.shared_access,
        other.app_root_dir_key == ctx.app_root_dir_key,
        other.safe_drive_dir_key == ctx.safe_drive_dir_key,
    ensures
        get_file_outcome(req, ctx) == Err::<Option<ResponseModel>, LauncherError>(
            LauncherError::InvalidPath,
        ),
        get_file_outcome(req, ctx) == get_file_outcome(req, other),
{
}

/// A shared-namespace request against a session that was never unlocked
/// is denied outright: the outcome is `PermissionDenied` whatever the
/// path holds, so nothing is ever tokenized or resolved for it.
pub proof fn lemma_locked_shared_access_is_denied(req: GetFile, ctx: RequestContext)
    requires
        req.is_path_shared,
        !ctx.shared_access,
    ensures
        get_file_outcome(req, ctx) == Err::<Option<ResponseModel>, LauncherError>(
            LauncherError::PermissionDenied,
        ),
{
}

/// A private-namespace request never looks at the shared-access flag:
/// two contexts that differ only in that snapshot agree on the outcome.
pub proof fn lemma_private_request_ignores_unlock(
    req: GetFile,
    ctx: RequestContext,
    other: RequestContext,
)
    requires
        !req.is_path_shared,
        other.client == ctx.client,
        other.app_root_dir_key == ctx.app_root_dir_key,
        other.safe_drive_dir_key == ctx.safe_drive_dir_key,
    ensures
        get_file_outcome(req, ctx) == get_file_outcome(req, other),
{
}

/// A get mutates nothing, so issuing the same request twice against the
/// same context — concurrently or not — yields structurally identical
/// outcomes.
pub proof fn lemma_get_file_idempotent(req: GetFile, again: GetFile, ctx: RequestContext)
    requires
        again == req,
    ensures
        get_file_outcome(again, ctx) == get_file_outcome(req, ctx),
{
}

/// A response never carries a metadata record that was not asked for,
/// whatever the directory graph holds for the file.
pub proof fn lemma_metadata_only_when_requested(req: GetFile, ctx: RequestContext)
    requires
        !req.include_metadata,
    ensures
        get_file_outcome(req, ctx) matches Ok(payload) ==> (payload matches Some(m)
            ==> m.metadata is None),
{
}

} // verus!
