//! Which entries of a walk are kept.

use vstd::prelude::*;
use crate::mapper::TreePath;
use crate::path::{extension, has_extension};

verus! {

/// What a walked entry is on disk.
#[derive(Debug, Clone, Copy, PartialEq, Eq, Structural)]
pub enum EntryKind {
    File,
    Directory,
    /// Neither a regular file nor a directory.
    Other,
}

/// One entry of a walk.
#[derive(Debug)]
pub struct Entry {
    pub path: TreePath,
    pub kind: EntryKind,
}

/// The filtering policy: every directory is kept, so that the tree keeps its
/// shape; a file is kept where its extension is exactly `ext`; nothing else
/// is.
pub open spec fn included(kind: EntryKind, path: Seq<Seq<char>>, ext: Seq<char>) -> bool {
    match kind {
        EntryKind::Directory => true,
        EntryKind::File => path.len() > 0 && extension(path.last()) == Some(ext),
        EntryKind::Other => false,
    }
}

/// A walk in which every file comes after the directory that holds it.
pub open spec fn parents_first(walk: Seq<(EntryKind, Seq<Seq<char>>)>) -> bool {
    forall|i: int|
        0 <= i < walk.len() && (#[trigger] walk[i]).0 == EntryKind::File ==> exists|j: int|
            0 <= j < i && #[trigger] walk[j] == (EntryKind::Directory, walk[i].1.drop_last())
}

/// Whether the walk keeps `entry`.
pub fn include_entry(entry: &Entry, ext: &str) -> (r: bool)
    ensures
        r == included(entry.kind, entry.path@, ext@),
{
    match entry.kind {
        EntryKind::Directory => true,
        EntryKind::File => match entry.path.file_name() {
            Some(name) => has_extension(name.as_str(), ext),
            None => false,
        },
        EntryKind::Other => false,
    }
}

} // verus!
