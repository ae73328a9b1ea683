//! The abstract directory graph a request is resolved against.
//!
//! The real network holds directories as encrypted, self-authenticated
//! structures; this layer never sees that. What it does see is captured
//! here as plain values: a table of nodes, each listing named edges to
//! child directories and the file entries the directory records. A
//! [`DirectoryKey`] is an opaque handle into that table; a key that is out
//! of range simply resolves to nothing.

use vstd::prelude::*;

verus! {

/// Opaque handle identifying one node of the directory graph.
#[derive(Clone, Copy, Debug, PartialEq, Eq, Structural)]
pub struct DirectoryKey {
    pub id: usize,
}

/// One file entry of a directory node: the content the storage side holds
/// for it, together with the metadata the directory records about it.
#[derive(Clone, Debug)]
pub struct FileEntry {
    pub name: String,
    pub content: String,
    pub size: i64,
    pub user_metadata: String,
    pub creation_time_sec: i64,
    pub creation_time_nsec: i64,
    pub modification_time_sec: i64,
    pub modification_time_nsec: i64,
}

/// A named edge from a directory node to a child directory.
#[derive(Clone, Debug)]
pub struct SubDirectory {
    pub name: String,
    pub key: DirectoryKey,
}

/// One node of the directory graph.
#[derive(Clone, Debug)]
pub struct DirectoryNode {
    pub sub_dirs: Vec<SubDirectory>,
    pub files: Vec<FileEntry>,
}

/// Snapshot of the whole directory graph a request runs against.
#[derive(Clone, Debug)]
pub struct DirectoryGraph {
    pub nodes: Vec<DirectoryNode>,
}

/// First edge of `entries` named `name`, if any.
pub open spec fn subdir_lookup(entries: Seq<SubDirectory>, name: Seq<char>) -> Option<DirectoryKey>
    decreases entries.len(),
{
    if entries.len() == 0 {
        None
    } else if entries[0].name@ == name {
        Some(entries[0].key)
    } else {
        subdir_lookup(entries.skip(1), name)
    }
}

/// First file entry of `entries` named `name`, if any.
pub open spec fn file_lookup(entries: Seq<FileEntry>, name: Seq<char>) -> Option<FileEntry>
    decreases entries.len(),
{
    if entries.len() == 0 {
        None
    } else if entries[0].name@ == name {
        Some(entries[0])
    } else {
        file_lookup(entries.skip(1), name)
    }
}

impl DirectoryNode {
    /// Key of the first child directory named `name`, if one exists.
    pub fn find_sub_dir(&self, name: &String) -> (r: Option<DirectoryKey>)
        ensures
            r == subdir_lookup(self.sub_dirs@, name@),
    {
        let n = self.sub_dirs.len();
        proof {
            assert(self.sub_dirs@.skip(0) =~= self.sub_dirs@);
        }
        for i in 0..n
            invariant
                n == self.sub_dirs@.len(),
                subdir_lookup(self.sub_dirs@, name@) == subdir_lookup(
                    self.sub_dirs@.skip(i as int),
                    name@,
                ),
        {
            proof {
                assert(self.sub_dirs@.skip(i as int)[0] == self.sub_dirs@[i as int]);
                assert(self.sub_dirs@.skip(i as int).skip(1) =~= self.sub_dirs@.skip(i + 1));
            }
            if self.sub_dirs[i].name == *name {
                return Some(self.sub_dirs[i].key);
            }
        }
        None
    }

    /// First file entry named `name`, if one exists.
    pub fn find_file(&self, name: &String) -> (r: Option<&FileEntry>)
        ensures
            match r {
                Some(entry) => file_lookup(self.files@, name@) == Some(*entry),
                None => file_lookup(self.files@, name@) is None,
            },
    {
        let n = self.files.len();
        proof {
            assert(self.files@.skip(0) =~= self.files@);
        }
        for i in 0..n
            invariant
                n == self.files@.len(),
                file_lookup(self.files@, name@) == file_lookup(self.files@.skip(i as int), name@),
        {
            proof {
                assert(self.files@.skip(i as int)[0] == self.files@[i as int]);
                assert(self.files@.skip(i as int).skip(1) =~= self.files@.skip(i + 1));
            }
            if self.files[i].name == *name {
                return Some(&self.files[i]);
            }
        }
        None
    }
}

impl DirectoryGraph {
    /// Whether `key` identifies a node of this graph.
    pub open spec fn spec_contains_key(&self, key: DirectoryKey) -> bool {
        key.id < self.nodes@.len()
    }

    /// The node `key` identifies, if the key is in range.
    pub fn node_at(&self, key: DirectoryKey) -> (r: Option<&DirectoryNode>)
        ensures
            self.spec_contains_key(key) ==> r == Some(&self.nodes@[key.id as int]),
            !self.spec_contains_key(key) ==> r is None,
    {
        if key.id < self.nodes.len() {
            Some(&self.nodes[key.id])
        } else {
            None
        }
    }
}

} // verus!
