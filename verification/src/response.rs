//! The typed result of a get and its deterministic JSON rendering.
//!
//! The outer response is an object whose keys come in a fixed order:
//! `content` always, then `metadata` only when metadata was requested
//! and obtained. The metadata record is serialized on its own first and
//! embedded into the outer object as a single string value — the wire
//! keeps that double encoding — with its fields in the fixed order
//! `name`, `size`, `user_metadata`, then the two creation and the two
//! modification time fields.

use vstd::prelude::*;

use crate::dir::FileEntry;
use crate::json::{append_i64, append_json_string, dec_str, json_string};

verus! {

/// A file's metadata record as the caller receives it. Times carry
/// seconds and nanoseconds in two separate integer fields, so no
/// precision is lost to rounding.
#[derive(Clone, Debug)]
pub struct Metadata {
    pub name: String,
    pub size: i64,
    pub user_metadata: String,
    pub creation_time_sec: i64,
    pub creation_time_nsec: i64,
    pub modification_time_sec: i64,
    pub modification_time_nsec: i64,
}

/// Mathematical image of a [`Metadata`] record.
#[verifier::ext_equal]
pub struct MetadataModel {
    pub name: Seq<char>,
    pub size: int,
    pub user_metadata: Seq<char>,
    pub creation_time_sec: int,
    pub creation_time_nsec: int,
    pub modification_time_sec: int,
    pub modification_time_nsec: int,
}

impl View for Metadata {
    type V = MetadataModel;

    open spec fn view(&self) -> MetadataModel {
        MetadataModel {
            name: self.name@,
            size: self.size as int,
            user_metadata: self.user_metadata@,
            creation_time_sec: self.creation_time_sec as int,
            creation_time_nsec: self.creation_time_nsec as int,
            modification_time_sec: self.modification_time_sec as int,
            modification_time_nsec: self.modification_time_nsec as int,
        }
    }
}

/// The metadata record a directory's file entry carries.
pub open spec fn metadata_of_entry(entry: FileEntry) -> MetadataModel {
    MetadataModel {
        name: entry.name@,
        size: entry.size as int,
        user_metadata: entry.user_metadata@,
        creation_time_sec: entry.creation_time_sec as int,
        creation_time_nsec: entry.creation_time_nsec as int,
        modification_time_sec: entry.modification_time_sec as int,
        modification_time_nsec: entry.modification_time_nsec as int,
    }
}

/// JSON text of a metadata record: one object, fields in declaration
/// order.
pub open spec fn metadata_json(m: MetadataModel) -> Seq<char> {
    "{\"name\":"@ + json_string(m.name) + ",\"size\":"@ + dec_str(m.size)
        + ",\"user_metadata\":"@ + json_string(m.user_metadata) + ",\"creation_time_sec\":"@
        + dec_str(m.creation_time_sec) + ",\"creation_time_nsec\":"@ + dec_str(
        m.creation_time_nsec,
    ) + ",\"modification_time_sec\":"@ + dec_str(m.modification_time_sec)
        + ",\"modification_time_nsec\":"@ + dec_str(m.modification_time_nsec) + "}"@
}

impl Metadata {
    /// The metadata record of a directory's file entry.
    pub fn from_entry(entry: &FileEntry) -> (m: Metadata)
        ensures
            m@ == metadata_of_entry(*entry),
    {
        Metadata {
            name: entry.name.clone(),
            size: entry.size,
            user_metadata: entry.user_metadata.clone(),
            creation_time_sec: entry.creation_time_sec,
            creation_time_nsec: entry.creation_time_nsec,
            modification_time_sec: entry.modification_time_sec,
            modification_time_nsec: entry.modification_time_nsec,
        }
    }

    /// Serializes this record on its own, as the wire embeds it.
    pub fn to_json(&self) -> (r: String)
        ensures
            r@ == metadata_json(self@),
    {
        let mut out = String::new();
        out.append("{\"name\":");
        append_json_string(&mut out, self.name.as_str());
        out.append(",\"size\":");
        append_i64(&mut out, self.size);
        out.append(",\"user_metadata\":");
        append_json_string(&mut out, self.user_metadata.as_str());
        out.append(",\"creation_time_sec\":");
        append_i64(&mut out, self.creation_time_sec);
        out.append(",\"creation_time_nsec\":");
        append_i64(&mut out, self.creation_time_nsec);
        out.append(",\"modification_time_sec\":");
        append_i64(&mut out, self.modification_time_sec);
        out.append(",\"modification_time_nsec\":");
        append_i64(&mut out, self.modification_time_nsec);
        out.append("}");
        proof {
            assert(out@ =~= metadata_json(self@));
        }
        out
    }
}

/// What a successful get hands back: the requested slice of the file's
/// content and, when it was asked for, the file's metadata record.
#[derive(Clone, Debug)]
pub struct GetFileResponse {
    pub content: String,
    pub metadata: Option<Metadata>,
}

/// Mathematical image of a [`GetFileResponse`].
#[verifier::ext_equal]
pub struct ResponseModel {
    pub content: Seq<char>,
    pub metadata: Option<MetadataModel>,
}

impl View for GetFileResponse {
    type V = ResponseModel;

    open spec fn view(&self) -> ResponseModel {
        ResponseModel {
            content: self.content@,
            metadata: match self.metadata {
                Some(m) => Some(m@),
                None => None,
            },
        }
    }
}

/// JSON text of a whole response: `content` first, then — only when
/// metadata was obtained — the metadata record's own JSON embedded as a
/// string value.
pub open spec fn response_json(r: ResponseModel) -> Seq<char> {
    "{\"content\":"@ + json_string(r.content) + (match r.metadata {
        Some(m) => ",\"metadata\":"@ + json_string(metadata_json(m)),
        None => Seq::<char>::empty(),
    }) + "}"@
}

impl GetFileResponse {
    /// Renders this response as its deterministic JSON text.
    pub fn to_json(&self) -> (r: String)
        ensures
            r@ == response_json(self@),
    {
        let mut out = String::new();
        out.append("{\"content\":");
        append_json_string(&mut out, self.content.as_str());
        if let Some(metadata) = &self.metadata {
            let record = metadata.to_json();
            out.append(",\"metadata\":");
            append_json_string(&mut out, record.as_str());
        }
        out.append("}");
        proof {
            assert(out@ =~= response_json(self@));
        }
        out
    }
}

} // verus!
