use launcher_core::dir::{DirectoryGraph, DirectoryKey, DirectoryNode, SubDirectory};
use launcher_core::error::LauncherError;
use launcher_core::path::{get_final_subdirectory, tokenise_path};
use launcher_core::response::{GetFileResponse, Metadata};

fn dir_edge(name: &str, id: usize) -> SubDirectory {
    SubDirectory { name: name.to_string(), key: DirectoryKey { id } }
}

fn node(sub_dirs: Vec<SubDirectory>) -> DirectoryNode {
    DirectoryNode { sub_dirs, files: Vec::new() }
}

fn metadata_record() -> Metadata {
    Metadata {
        name: "file.txt".to_string(),
        size: 22,
        user_metadata: "tag".to_string(),
        creation_time_sec: 1000,
        creation_time_nsec: 500,
        modification_time_sec: 2000,
        modification_time_nsec: 750,
    }
}

#[test]
fn tokenise_drops_empty_segments() {
    assert_eq!(tokenise_path("/a/b/file.txt", false), ["a", "b", "file.txt"]);
    assert_eq!(tokenise_path("a//b/", false), ["a", "b"]);
    assert_eq!(tokenise_path("///", false), Vec::<String>::new());
    assert_eq!(tokenise_path("", false), Vec::<String>::new());
    assert_eq!(tokenise_path("plain", false), ["plain"]);
}

#[test]
fn tokenise_can_keep_empty_segments() {
    assert_eq!(tokenise_path("/a//b/", true), ["", "a", "", "b", ""]);
    assert_eq!(tokenise_path("", true), [""]);
    assert_eq!(tokenise_path("/", true), ["", ""]);
}

#[test]
fn walk_follows_each_segment_in_order() {
    let graph = DirectoryGraph {
        nodes: vec![
            node(vec![dir_edge("a", 1), dir_edge("z", 2)]),
            node(vec![dir_edge("b", 2)]),
            node(Vec::new()),
        ],
    };
    let tokens = vec!["a".to_string(), "b".to_string()];
    let r = get_final_subdirectory(&graph, &tokens, DirectoryKey { id: 0 });
    assert_eq!(r.unwrap(), DirectoryKey { id: 2 });
}

#[test]
fn walk_of_no_segments_stays_at_the_start() {
    let graph = DirectoryGraph { nodes: vec![node(Vec::new())] };
    let r = get_final_subdirectory(&graph, &Vec::new(), DirectoryKey { id: 0 });
    assert_eq!(r.unwrap(), DirectoryKey { id: 0 });
}

#[test]
fn walk_fails_on_a_missing_segment() {
    let graph = DirectoryGraph { nodes: vec![node(vec![dir_edge("a", 1)]), node(Vec::new())] };
    let tokens = vec!["a".to_string(), "missing".to_string()];
    let r = get_final_subdirectory(&graph, &tokens, DirectoryKey { id: 0 });
    assert_eq!(r.unwrap_err(), LauncherError::PathNotFound);
}

#[test]
fn walk_fails_on_an_out_of_range_key() {
    let graph = DirectoryGraph { nodes: vec![node(Vec::new())] };
    let tokens = vec!["a".to_string()];
    let r = get_final_subdirectory(&graph, &tokens, DirectoryKey { id: 7 });
    assert_eq!(r.unwrap_err(), LauncherError::PathNotFound);
}

#[test]
fn metadata_serializes_with_fields_in_order() {
    let m = metadata_record();
    assert_eq!(
        m.to_json(),
        "{\"name\":\"file.txt\",\"size\":22,\"user_metadata\":\"tag\",\
         \"creation_time_sec\":1000,\"creation_time_nsec\":500,\
         \"modification_time_sec\":2000,\"modification_time_nsec\":750}"
    );
}

#[test]
fn metadata_serializes_extreme_sizes_and_negative_times() {
    let mut m = metadata_record();
    m.size = i64::MAX;
    m.creation_time_sec = i64::MIN;
    m.creation_time_nsec = 0;
    let text = m.to_json();
    assert!(text.contains("\"size\":9223372036854775807"));
    assert!(text.contains("\"creation_time_sec\":-9223372036854775808"));
    assert!(text.contains("\"creation_time_nsec\":0"));
}

#[test]
fn string_values_are_escaped() {
    let mut m = metadata_record();
    m.name = "a\"b\\c\nd".to_string();
    let text = m.to_json();
    assert!(text.contains("\"name\":\"a\\\"b\\\\c\\u000ad\""));
}

#[test]
fn response_without_metadata_has_only_content() {
    let r = GetFileResponse { content: "payload".to_string(), metadata: None };
    assert_eq!(r.to_json(), "{\"content\":\"payload\"}");
}

#[test]
fn response_embeds_metadata_as_one_serialized_string() {
    let r = GetFileResponse { content: "x".to_string(), metadata: Some(metadata_record()) };
    let text = r.to_json();
    assert!(text.starts_with("{\"content\":\"x\",\"metadata\":\"{\\\"name\\\":\\\"file.txt\\\""));
    assert!(text.ends_with("750}\"}"));
}
