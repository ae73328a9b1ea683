use launcher_core::action::{execute_action, Action, GetFile, RequestContext};
use launcher_core::dir::{DirectoryGraph, DirectoryKey, DirectoryNode, FileEntry, SubDirectory};
use launcher_core::error::LauncherError;

fn entry(name: &str, content: &str) -> FileEntry {
    FileEntry {
        name: name.to_string(),
        content: content.to_string(),
        size: content.len() as i64,
        user_metadata: String::new(),
        creation_time_sec: 1000,
        creation_time_nsec: 500,
        modification_time_sec: 2000,
        modification_time_nsec: 750,
    }
}

fn empty_node() -> DirectoryNode {
    DirectoryNode { sub_dirs: Vec::new(), files: Vec::new() }
}

/// App root (node 0) holds subdirectory `a` (node 1), which holds
/// subdirectory `b` (node 2), which holds `file.txt`.
fn sample_graph() -> DirectoryGraph {
    let root = DirectoryNode {
        sub_dirs: vec![SubDirectory { name: "a".to_string(), key: DirectoryKey { id: 1 } }],
        files: Vec::new(),
    };
    let a = DirectoryNode {
        sub_dirs: vec![SubDirectory { name: "b".to_string(), key: DirectoryKey { id: 2 } }],
        files: Vec::new(),
    };
    let b = DirectoryNode {
        sub_dirs: Vec::new(),
        files: vec![entry("file.txt", "hello from the network")],
    };
    DirectoryGraph { nodes: vec![root, a, b, empty_node()] }
}

fn context(graph: DirectoryGraph, shared_access: bool) -> RequestContext {
    RequestContext {
        client: graph,
        shared_access,
        app_root_dir_key: DirectoryKey { id: 0 },
        safe_drive_dir_key: DirectoryKey { id: 3 },
    }
}

fn request(path: &str) -> GetFile {
    GetFile {
        offset: 0,
        length: 0,
        file_path: path.to_string(),
        is_path_shared: false,
        include_metadata: false,
    }
}

#[test]
fn empty_path_is_invalid() {
    for path in ["", "/", "///"] {
        let req = request(path);
        let r = req.execute(&context(sample_graph(), false));
        assert!(matches!(r, Err(LauncherError::InvalidPath)));
    }
}

#[test]
fn empty_path_is_invalid_against_any_graph() {
    let req = request("//");
    let bare = DirectoryGraph { nodes: Vec::new() };
    let r = req.execute(&context(bare, false));
    assert!(matches!(r, Err(LauncherError::InvalidPath)));
}

#[test]
fn locked_shared_access_is_denied() {
    let mut req = request("/a/b/file.txt");
    req.is_path_shared = true;
    let r = req.execute(&context(sample_graph(), false));
    assert!(matches!(r, Err(LauncherError::PermissionDenied)));
}

#[test]
fn locked_shared_access_is_denied_before_the_path_is_read() {
    // Even a path that would otherwise be rejected as invalid is never
    // looked at once permission fails.
    let mut req = request("");
    req.is_path_shared = true;
    let r = req.execute(&context(sample_graph(), false));
    assert!(matches!(r, Err(LauncherError::PermissionDenied)));
}

#[test]
fn unlocked_shared_access_passes() {
    let mut req = request("/file.txt");
    req.is_path_shared = true;
    let shared_root = DirectoryNode {
        sub_dirs: Vec::new(),
        files: vec![entry("file.txt", "shared bytes")],
    };
    let graph = DirectoryGraph {
        nodes: vec![empty_node(), empty_node(), empty_node(), shared_root],
    };
    let r = req.execute(&context(graph, true)).unwrap().unwrap();
    assert_eq!(r.content, "shared bytes");
}

#[test]
fn private_request_ignores_unlock_flag() {
    let req = request("/a/b/file.txt");
    let locked = req.execute(&context(sample_graph(), false)).unwrap().unwrap();
    let unlocked = req.execute(&context(sample_graph(), true)).unwrap().unwrap();
    assert_eq!(locked.content, unlocked.content);
    assert_eq!(locked.to_json(), unlocked.to_json());
}

#[test]
fn resolves_nested_path() {
    let req = request("/a/b/file.txt");
    let r = req.execute(&context(sample_graph(), false)).unwrap().unwrap();
    assert_eq!(r.content, "hello from the network");
    assert!(r.metadata.is_none());
}

#[test]
fn missing_directory_segment_is_path_not_found() {
    let req = request("/a/missing/file.txt");
    let r = req.execute(&context(sample_graph(), false));
    assert!(matches!(r, Err(LauncherError::PathNotFound)));
}

#[test]
fn missing_file_is_content_unavailable() {
    let req = request("/a/b/other.txt");
    let r = req.execute(&context(sample_graph(), false));
    assert!(matches!(r, Err(LauncherError::ContentUnavailable)));
}

#[test]
fn out_of_range_root_key_is_path_not_found() {
    let req = request("/a/b/file.txt");
    let mut ctx = context(sample_graph(), false);
    ctx.app_root_dir_key = DirectoryKey { id: 99 };
    let r = req.execute(&ctx);
    assert!(matches!(r, Err(LauncherError::PathNotFound)));
}

#[test]
fn metadata_is_absent_unless_requested() {
    let mut req = request("/a/b/file.txt");
    req.include_metadata = false;
    let r = req.execute(&context(sample_graph(), false)).unwrap().unwrap();
    assert!(r.metadata.is_none());
    assert!(!r.to_json().contains("metadata"));
}

#[test]
fn metadata_carries_times_unchanged() {
    let mut req = request("/a/b/file.txt");
    req.include_metadata = true;
    let r = req.execute(&context(sample_graph(), false)).unwrap().unwrap();
    let m = r.metadata.expect("metadata was requested");
    assert_eq!(m.name, "file.txt");
    assert_eq!(m.creation_time_sec, 1000);
    assert_eq!(m.creation_time_nsec, 500);
    assert_eq!(m.modification_time_sec, 2000);
    assert_eq!(m.modification_time_nsec, 750);
}

#[test]
fn identical_requests_get_identical_responses() {
    let mut req = request("/a/b/file.txt");
    req.include_metadata = true;
    let ctx = context(sample_graph(), false);
    let first = req.execute(&ctx).unwrap().unwrap();
    let second = req.execute(&ctx).unwrap().unwrap();
    assert_eq!(first.to_json(), second.to_json());
}

#[test]
fn offset_and_length_select_a_slice() {
    let mut req = request("/a/b/file.txt");
    req.offset = 6;
    req.length = 4;
    let r = req.execute(&context(sample_graph(), false)).unwrap().unwrap();
    assert_eq!(r.content, "from");
}

#[test]
fn zero_length_reads_to_the_end() {
    let mut req = request("/a/b/file.txt");
    req.offset = 6;
    req.length = 0;
    let r = req.execute(&context(sample_graph(), false)).unwrap().unwrap();
    assert_eq!(r.content, "from the network");
}

#[test]
fn length_past_the_end_is_clamped() {
    let mut req = request("/a/b/file.txt");
    req.offset = 6;
    req.length = 1000;
    let r = req.execute(&context(sample_graph(), false)).unwrap().unwrap();
    assert_eq!(r.content, "from the network");
}

#[test]
fn offset_at_or_past_the_end_reads_nothing() {
    for offset in [22, 23, 1000] {
        let mut req = request("/a/b/file.txt");
        req.offset = offset;
        let r = req.execute(&context(sample_graph(), false)).unwrap().unwrap();
        assert_eq!(r.content, "");
    }
}

#[test]
fn negative_offset_or_length_is_content_unavailable() {
    let mut req = request("/a/b/file.txt");
    req.offset = -1;
    let r = req.execute(&context(sample_graph(), false));
    assert!(matches!(r, Err(LauncherError::ContentUnavailable)));

    let mut req = request("/a/b/file.txt");
    req.length = -1;
    let r = req.execute(&context(sample_graph(), false));
    assert!(matches!(r, Err(LauncherError::ContentUnavailable)));
}

#[test]
fn dispatch_encodes_a_successful_get() {
    let mut req = request("/a/b/file.txt");
    req.offset = 6;
    req.length = 4;
    let r = execute_action(&Action::GetFile(req), &context(sample_graph(), false));
    assert_eq!(r.unwrap().unwrap(), "{\"content\":\"from\"}");
}

#[test]
fn dispatch_propagates_errors() {
    let req = request("/a/missing/file.txt");
    let r = execute_action(&Action::GetFile(req), &context(sample_graph(), false));
    assert!(matches!(r, Err(LauncherError::PathNotFound)));
}

#[test]
fn unwired_actions_report_not_implemented() {
    let ctx = context(sample_graph(), false);
    for action in [Action::PutFile, Action::DeleteFile, Action::ListDir] {
        let r = execute_action(&action, &ctx);
        assert!(matches!(r, Err(LauncherError::NotImplemented)));
    }
}
