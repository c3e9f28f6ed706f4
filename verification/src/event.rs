//! Notifications of the filesystem watcher, reduced to their kind.

use vstd::prelude::*;

verus! {

/// The kind of a coalesced notification, as a debounced watcher delivers it.
///
/// The paths that a notification names are not kept: a change is a trigger
/// for a full rebuild, never the key of a partial update.
#[derive(Clone, Copy, Debug, PartialEq, Eq, Structural)]
pub enum ChangeKind {
    /// A write was noticed; the quiet period has not passed yet.
    NoticeWrite,
    /// A removal or rename was noticed; the quiet period has not passed yet.
    NoticeRemove,
    /// A path was created.
    Create,
    /// A path was written to.
    Write,
    /// The attributes of a path changed.
    Chmod,
    /// A path was removed.
    Remove,
    /// A path was moved inside the watched tree.
    Rename,
    /// The watcher lost track and asks for a new scan.
    Rescan,
    /// The watcher reports an error of its own.
    Error,
}

impl ChangeKind {
    /// Whether a notification of this kind asks for a rebuild: a creation or
    /// a write does, nothing else.
    pub open spec fn triggers_rebuild(self) -> bool {
        self is Create || self is Write
    }

    /// Tells whether this kind asks for a rebuild.
    pub fn is_rebuild_trigger(&self) -> (b: bool)
        ensures
            b == self.triggers_rebuild(),
    {
        match self {
            ChangeKind::Create | ChangeKind::Write => true,
            _ => false,
        }
    }
}

} // verus!
