//! The uniform dispatch contract and the get-file action.
//!
//! Every request kind shares one execution protocol: given the request's
//! decoded fields and the session's [`RequestContext`], execution yields
//! either no payload, a payload, or one typed [`LauncherError`]. The
//! get-file action checks permission first, then tokenizes its path,
//! walks the directory graph to the parent directory, and looks the
//! target file up there; nothing anywhere in the system is mutated by a
//! successful get.

use vstd::prelude::*;

use crate::dir::{file_lookup, DirectoryGraph, DirectoryKey};
use crate::error::LauncherError;
use crate::path::{get_final_subdirectory, path_tokens, resolve_spec, tokenise_path};
use crate::permission::{check_shared_access, permission_allows};
use crate::response::{
    metadata_of_entry, response_json, GetFileResponse, Metadata, ResponseModel,
};

verus! {

/// Everything one request's execution borrows from the session: the
/// directory-graph snapshot standing in for the storage client, the
/// shared-access unlock snapshot (read once under the session lock when
/// the context was built, immutable afterwards), and the two
/// permission-scoped directory roots.
pub struct RequestContext {
    pub client: DirectoryGraph,
    pub shared_access: bool,
    pub app_root_dir_key: DirectoryKey,
    pub safe_drive_dir_key: DirectoryKey,
}

/// A decoded get-file request.
///
/// `offset` and `length` select the slice of the file to read; both must
/// be non-negative, and a `length` of zero means "read to the end of the
/// file". `is_path_shared` selects the root the path is resolved
/// against, and `include_metadata` asks for the file's metadata record
/// alongside the content.
#[derive(Clone, Debug)]
pub struct GetFile {
    pub offset: i64,
    pub length: i64,
    pub file_path: String,
    pub is_path_shared: bool,
    pub include_metadata: bool,
}

/// The slice of `content` a request asks for, reading `length`
/// characters from `offset`: a zero `length` reads to the end, and both
/// the start and the end of the slice are clamped to the content's end.
pub open spec fn content_slice(content: Seq<char>, offset: int, length: int) -> Seq<char> {
    let from = if offset > content.len() {
        content.len() as int
    } else {
        offset
    };
    let to = if length == 0 || from + length > content.len() {
        content.len() as int
    } else {
        from + length
    };
    content.subrange(from, to)
}

/// Copies the requested slice out of a file's content.
pub fn slice_content(content: &str, offset: i64, length: i64) -> (r: String)
    requires
        0 <= offset,
        0 <= length,
    ensures
        r@ == content_slice(content@, offset as int, length as int),
{
    let n = content.unicode_len();
    let from: usize = if offset as u64 >= n as u64 {
        n
    } else {
        offset as usize
    };
    let to: usize = if length == 0 {
        n
    } else {
        let remaining = n - from;
        if length as u64 >= remaining as u64 {
            n
        } else {
            from + length as usize
        }
    };
    content.substring_char(from, to).to_owned()
}

/// What one get-file execution decides, as a single function of the
/// request and the context it runs against. Success is owed exactly when
/// permission allows the request, the path has a target name, every
/// directory segment exists, the parent directory holds the target file,
/// and the requested slice is well-formed.
pub open spec fn get_file_outcome(req: GetFile, ctx: RequestContext) -> Result<
    Option<ResponseModel>,
    LauncherError,
> {
    if !permission_allows(req.is_path_shared, ctx.shared_access) {
        Err(LauncherError::PermissionDenied)
    } else {
        let tokens = path_tokens(req.file_path@, false);
        if tokens.len() == 0 {
            Err(LauncherError::InvalidPath)
        } else {
            let root = if req.is_path_shared {
                ctx.safe_drive_dir_key
            } else {
                ctx.app_root_dir_key
            };
            match resolve_spec(ctx.client, root, tokens.drop_last()) {
                None => Err(LauncherError::PathNotFound),
                Some(parent) => {
                    if !ctx.client.spec_contains_key(parent) {
                        Err(LauncherError::PathNotFound)
                    } else {
                        match file_lookup(
                            ctx.client.nodes@[parent.id as int].files@,
                            tokens.last(),
                        ) {
                            None => Err(LauncherError::ContentUnavailable),
                            Some(entry) => {
                                if req.offset < 0 || req.length < 0 {
                                    Err(LauncherError::ContentUnavailable)
                                } else {
                                    Ok(
                                        Some(
                                            ResponseModel {
                                                content: content_slice(
                                                    entry.content@,
                                                    req.offset as int,
                                                    req.length as int,
                                                ),
                                                metadata: if req.include_metadata {
                                                    Some(metadata_of_entry(entry))
                                                } else {
                                                    None
                                                },
                                            },
                                        ),
                                    )
                                }
                            },
                        }
                    }
                },
            }
        }
    }
}

/// The model of an execution result: payloads by their views, errors as
/// themselves.
pub open spec fn response_result_model(r: Result<Option<GetFileResponse>, LauncherError>) -> Result<
    Option<ResponseModel>,
    LauncherError,
> {
    match r {
        Ok(Some(resp)) => Ok(Some(resp@)),
        Ok(None) => Ok(None),
        Err(e) => Err(e),
    }
}

impl GetFile {
    /// Runs this request against `ctx`: permission check, path
    /// tokenization, directory walk, then the content and metadata
    /// lookup, failing fast at the first step that cannot proceed. A
    /// response never carries a metadata record that was not asked for.
    pub fn execute(&self, ctx: &RequestContext) -> (r: Result<
        Option<GetFileResponse>,
        LauncherError,
    >)
        ensures
            response_result_model(r) == get_file_outcome(*self, *ctx),
            !self.include_metadata ==> (r matches Ok(Some(resp)) ==> resp.metadata is None),
    {
        if let Err(denied) = check_shared_access(self.is_path_shared, ctx.shared_access) {
            return Err(denied);
        }
        let mut tokens = tokenise_path(self.file_path.as_str(), false);
        let ghost all_tokens = tokens.deep_view();
        let file_to_get = match tokens.pop() {
            Some(name) => name,
            None => {
                return Err(LauncherError::InvalidPath);
            },
        };
        proof {
            assert(tokens.deep_view() =~= all_tokens.drop_last());
            assert(file_to_get@ == all_tokens.last());
        }
        let start_dir_key = if self.is_path_shared {
            ctx.safe_drive_dir_key
        } else {
            ctx.app_root_dir_key
        };
        let parent_dir_key = match get_final_subdirectory(&ctx.client, &tokens, start_dir_key) {
            Ok(key) => key,
            Err(missing) => {
                return Err(missing);
            },
        };
        let parent_dir = match ctx.client.node_at(parent_dir_key) {
            Some(node) => node,
            None => {
                return Err(LauncherError::PathNotFound);
            },
        };
        let entry = match parent_dir.find_file(&file_to_get) {
            Some(entry) => entry,
            None => {
                return Err(LauncherError::ContentUnavailable);
            },
        };
        if self.offset < 0 || self.length < 0 {
            return Err(LauncherError::ContentUnavailable);
        }
        let metadata = if self.include_metadata {
            Some(Metadata::from_entry(entry))
        } else {
            None
        };
        let content = slice_content(entry.content.as_str(), self.offset, self.length);
        let response = GetFileResponse { content, metadata };
        proof {
            assert(get_file_outcome(*self, *ctx) matches Ok(o) && o matches Some(m) && m
                =~= response@);
        }
        Ok(Some(response))
    }
}

/// The closed set of request kinds the dispatch layer knows. A variant
/// whose execution path is not yet wired to a real collaborator reports
/// `NotImplemented` rather than aborting, so callers can tell "not
/// built" from "failed".
pub enum Action {
    GetFile(GetFile),
    PutFile,
    DeleteFile,
    ListDir,
}

/// The uniform execution entry point shared by every action: one typed
/// request in, either nothing, one encoded response text, or one typed
/// error out.
pub fn execute_action(action: &Action, ctx: &RequestContext) -> (r: Result<
    Option<String>,
    LauncherError,
>)
    ensures
        match action {
            Action::GetFile(req) => match get_file_outcome(*req, *ctx) {
                Ok(Some(m)) => r matches Ok(Some(text)) && text@ == response_json(m),
                Ok(None) => r == Ok::<Option<String>, LauncherError>(None),
                Err(e) => r == Err::<Option<String>, LauncherError>(e),
            },
            _ => r == Err::<Option<String>, LauncherError>(LauncherError::NotImplemented),
        },
{
    match action {
        Action::GetFile(req) => match req.execute(ctx) {
            Ok(Some(response)) => Ok(Some(response.to_json())),
            Ok(None) => Ok(None),
            Err(e) => Err(e),
        },
        Action::PutFile => Err(LauncherError::NotImplemented),
        Action::DeleteFile => Err(LauncherError::NotImplemented),
        Action::ListDir => Err(LauncherError::NotImplemented),
    }
}

} // verus!
