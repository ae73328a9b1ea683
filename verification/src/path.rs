//! Path resolution: tokenizing a raw path string into segments and
//! walking the directory graph along a segment chain.
//!
//! A path is split on `'/'`. Empty pieces (from doubled or leading or
//! trailing separators) are dropped unless the caller asks to keep them;
//! the last remaining segment names the target, the ones before it name
//! the directory chain to walk.

use vstd::prelude::*;

use crate::dir::{subdir_lookup, DirectoryGraph, DirectoryKey};
use crate::error::LauncherError;

verus! {

/// Segments of `s` once a partial segment `cur` has already been read:
/// the pieces between separators, empty pieces dropped unless
/// `keep_empty` is set.
pub open spec fn tokens_from(s: Seq<char>, cur: Seq<char>, keep_empty: bool) -> Seq<Seq<char>>
    decreases s.len(),
{
    if s.len() == 0 {
        if cur.len() > 0 || keep_empty {
            seq![cur]
        } else {
            Seq::empty()
        }
    } else if s[0] == '/' {
        (if cur.len() > 0 || keep_empty {
            seq![cur]
        } else {
            Seq::empty()
        }) + tokens_from(s.skip(1), Seq::empty(), keep_empty)
    } else {
        tokens_from(s.skip(1), cur.push(s[0]), keep_empty)
    }
}

/// The token sequence of a whole path string.
pub open spec fn path_tokens(path: Seq<char>, keep_empty: bool) -> Seq<Seq<char>> {
    tokens_from(path, Seq::empty(), keep_empty)
}

/// Splits `path` on the `'/'` separator into an ordered list of segment
/// strings. With `keep_empty` unset only non-empty segments are kept;
/// with it set, every piece between separators is kept, so a trailing
/// separator shows up as a final empty segment.
pub fn tokenise_path(path: &str, keep_empty: bool) -> (tokens: Vec<String>)
    ensures
        tokens.deep_view() == path_tokens(path@, keep_empty),
{
    let n = path.unicode_len();
    let mut tokens: Vec<String> = Vec::new();
    let mut start: usize = 0;
    proof {
        assert(path@.skip(0) =~= path@);
        assert(path@.subrange(0, 0) =~= Seq::<char>::empty());
        assert(tokens.deep_view() =~= Seq::<Seq<char>>::empty());
    }
    for i in 0..n
        invariant
            n == path@.len(),
            start <= i <= n,
            path_tokens(path@, keep_empty) == tokens.deep_view() + tokens_from(
                path@.skip(i as int),
                path@.subrange(start as int, i as int),
                keep_empty,
            ),
    {
        let ghost cur = path@.subrange(start as int, i as int);
        proof {
            assert(path@.skip(i as int)[0] == path@[i as int]);
            assert(path@.skip(i as int).skip(1) =~= path@.skip(i + 1));
            assert(cur.len() == i - start);
        }
        let c = path.get_char(i);
        if c == '/' {
            if i > start || keep_empty {
                let segment = path.substring_char(start, i).to_owned();
                proof {
                    let prev = tokens.deep_view();
                    assert(tokens.deep_view().push(segment@) + tokens_from(
                        path@.skip(i + 1),
                        Seq::empty(),
                        keep_empty,
                    ) =~= tokens.deep_view() + (seq![cur] + tokens_from(
                        path@.skip(i + 1),
                        Seq::empty(),
                        keep_empty,
                    )));
                }
                tokens.push(segment);
                proof {
                    assert(tokens.deep_view() =~= tokens.deep_view().drop_last().push(segment@));
                }
            }
            start = i + 1;
            proof {
                assert(path@.subrange(start as int, i + 1) =~= Seq::<char>::empty());
            }
        } else {
            proof {
                assert(cur.push(path@[i as int]) =~= path@.subrange(start as int, i + 1));
            }
        }
    }
    if n > start || keep_empty {
        let ghost cur = path@.subrange(start as int, n as int);
        let segment = path.substring_char(start, n).to_owned();
        proof {
            assert(path@.skip(n as int).len() == 0);
            assert(tokens.deep_view().push(segment@) =~= tokens.deep_view() + seq![cur]);
        }
        tokens.push(segment);
        proof {
            assert(tokens.deep_view() =~= tokens.deep_view().drop_last().push(segment@));
        }
    } else {
        proof {
            assert(path@.skip(n as int).len() == 0);
            assert(tokens.deep_view() + Seq::<Seq<char>>::empty() =~= tokens.deep_view());
        }
    }
    tokens
}

/// Directory reached by following `tokens`, one child-directory lookup
/// per segment, starting at `key`; nothing if a segment is missing or a
/// key falls outside the graph.
pub open spec fn resolve_spec(
    graph: DirectoryGraph,
    key: DirectoryKey,
    tokens: Seq<Seq<char>>,
) -> Option<DirectoryKey>
    decreases tokens.len(),
{
    if tokens.len() == 0 {
        Some(key)
    } else if !graph.spec_contains_key(key) {
        None
    } else {
        match subdir_lookup(graph.nodes@[key.id as int].sub_dirs@, tokens[0]) {
            Some(child) => resolve_spec(graph, child, tokens.skip(1)),
            None => None,
        }
    }
}

/// Walks the directory graph from `start_dir_key`, following each token
/// in order as a child-directory lookup, and returns the final directory
/// reached — the start itself when `tokens` is empty. A missing segment
/// anywhere along the chain fails with `PathNotFound`.
pub fn get_final_subdirectory(
    graph: &DirectoryGraph,
    tokens: &Vec<String>,
    start_dir_key: DirectoryKey,
) -> (r: Result<DirectoryKey, LauncherError>)
    ensures
        match r {
            Ok(key) => resolve_spec(*graph, start_dir_key, tokens.deep_view()) == Some(key),
            Err(e) => {
                &&& resolve_spec(*graph, start_dir_key, tokens.deep_view()) is None
                &&& e == LauncherError::PathNotFound
            },
        },
{
    let mut current = start_dir_key;
    let n = tokens.len();
    proof {
        assert(tokens.deep_view().skip(0) =~= tokens.deep_view());
    }
    for i in 0..n
        invariant
            n == tokens@.len(),
            resolve_spec(*graph, start_dir_key, tokens.deep_view()) == resolve_spec(
                *graph,
                current,
                tokens.deep_view().skip(i as int),
            ),
    {
        proof {
            assert(tokens.deep_view().skip(i as int)[0] == tokens@[i as int]@);
            assert(tokens.deep_view().skip(i as int).skip(1) =~= tokens.deep_view().skip(i + 1));
        }
        let node = match graph.node_at(current) {
            Some(node) => node,
            None => {
                return Err(LauncherError::PathNotFound);
            },
        };
        match node.find_sub_dir(&tokens[i]) {
            Some(child) => {
                current = child;
            },
            None => {
                return Err(LauncherError::PathNotFound);
            },
        }
    }
    Ok(current)
}

} // verus!
