//! Action-dispatch and path-resolution core of a launcher that exposes
//! file operations over a virtual hierarchical namespace.
//!
//! A decoded request is authorized against the session's shared-access
//! snapshot, its path is tokenized and walked through an abstract
//! directory graph, the target file's bytes and (optionally) metadata are
//! looked up, and the result is rendered as a deterministic JSON response.
//! Storage, encryption and transport stay outside this crate: the graph a
//! request runs against is handed in as a plain value.

pub mod action;
pub mod dir;
pub mod error;
pub mod json;
pub mod laws;
pub mod path;
pub mod permission;
pub mod response;
