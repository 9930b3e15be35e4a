//! What a walk over a directory tree yields.

use crate::path::TreePath;
use vstd::prelude::*;

verus! {

/// One entry met while walking a tree: where it is, and what kind of entry the
/// walk saw there.
#[derive(Debug)]
pub struct TreeEntry {
    pub path: TreePath,
    pub is_dir: bool,
    pub is_symlink: bool,
}

/// A `TreeEntry` as contracts see it.
pub struct TreeEntryView {
    pub path: Seq<Seq<char>>,
    pub is_dir: bool,
    pub is_symlink: bool,
}

impl View for TreeEntry {
    type V = TreeEntryView;

    open spec fn view(&self) -> TreeEntryView {
        TreeEntryView { path: self.path@, is_dir: self.is_dir, is_symlink: self.is_symlink }
    }
}

impl TreeEntry {
    /// The entry at `path` with the given kind.
    pub fn new(path: TreePath, is_dir: bool, is_symlink: bool) -> (e: TreeEntry)
        ensures
            e.path == path,
            e.is_dir == is_dir,
            e.is_symlink == is_symlink,
    {
        TreeEntry { path, is_dir, is_symlink }
    }
}

/// One step of a walk: an entry, or the fact that the walk could not read
/// what came next.
#[derive(Debug)]
pub enum WalkItem {
    Entry(TreeEntry),
    Unreadable,
}

impl View for WalkItem {
    type V = Option<TreeEntryView>;

    open spec fn view(&self) -> Option<TreeEntryView> {
        match self {
            WalkItem::Entry(e) => Some(e@),
            WalkItem::Unreadable => None,
        }
    }
}

/// The steps of a walk as contracts see them, in walk order.
pub open spec fn walk_view(walk: Seq<WalkItem>) -> Seq<Option<TreeEntryView>> {
    Seq::new(walk.len(), |i: int| walk[i]@)
}

} // verus!
