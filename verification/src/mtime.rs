//! The freshest modification time under a tree.
//!
//! The answer is a rebuild signal: it changes when anything under the tree
//! changes, and that includes a symbolic link that is pointed somewhere else,
//! even when the new target is older than the link.

use crate::timestamp::{lemma_order_antisymmetric, lemma_order_transitive, FileTimestamp};
use vstd::prelude::*;

verus! {

/// What was learnt of one entry while walking a tree with links followed.
/// A time that is `None` could not be read.
#[derive(Clone, Copy, Debug)]
pub enum EntryProbe {
    /// The walk could not read the entry at all.
    Unreadable,
    /// An entry that is no symbolic link, with its modification time.
    Plain { mtime: Option<FileTimestamp> },
    /// A symbolic link: `link` is the time of the link itself, read without
    /// following it, and `target` the time of what it resolves to.
    Symlink { link: Option<FileTimestamp>, target: Option<FileTimestamp> },
}

/// What was learnt of a path: a single file with its modification time, or a
/// directory with its own modification time and the walk below it.
#[derive(Debug)]
pub enum TreeScan {
    File { mtime: FileTimestamp },
    Directory { mtime: FileTimestamp, entries: Vec<EntryProbe> },
}

/// The time that an entry contributes, if any.
///
/// An entry whose time could not be read contributes nothing. A symbolic link
/// contributes the later of its own time and its target's, or its own time
/// alone when the target's could not be read; without its own time it
/// contributes nothing, whatever is known of the target.
pub open spec fn candidate(probe: EntryProbe) -> Option<FileTimestamp> {
    match probe {
        EntryProbe::Unreadable => None,
        EntryProbe::Plain { mtime } => mtime,
        EntryProbe::Symlink { link: None, .. } => None,
        EntryProbe::Symlink { link: Some(own), target: None } => Some(own),
        EntryProbe::Symlink { link: Some(own), target: Some(resolved) } => Some(
            own.later_of(resolved),
        ),
    }
}

/// `t` is the latest of the times that the entries contribute: one of them
/// contributes it, and none contributes a later one.
pub open spec fn is_latest_of(entries: Seq<EntryProbe>, t: FileTimestamp) -> bool {
    &&& exists|i: int| 0 <= i < entries.len() && candidate(#[trigger] entries[i]) == Some(t)
    &&& forall|i: int|
        0 <= i < entries.len() ==> match candidate(#[trigger] entries[i]) {
            Some(other) => other.not_after(t),
            None => true,
        }
}

/// No entry contributes a time.
pub open spec fn none_contributes(entries: Seq<EntryProbe>) -> bool {
    forall|i: int| 0 <= i < entries.len() ==> candidate(#[trigger] entries[i]) is None
}

/// `t` is the freshest modification time of what was scanned: a file's own
/// time; for a directory the latest time that its entries contribute, and the
/// directory's own time when none contributes any.
pub open spec fn is_freshest(scan: TreeScan, t: FileTimestamp) -> bool {
    match scan {
        TreeScan::File { mtime } => t == mtime,
        TreeScan::Directory { mtime, entries } => if none_contributes(entries@) {
            t == mtime
        } else {
            is_latest_of(entries@, t)
        },
    }
}

/// The time that one entry contributes.
pub fn entry_mtime(probe: &EntryProbe) -> (t: Option<FileTimestamp>)
    ensures
        t == candidate(*probe),
{
    match probe {
        EntryProbe::Unreadable => None,
        EntryProbe::Plain { mtime } => *mtime,
        EntryProbe::Symlink { link, target } => match link {
            None => None,
            Some(own) => match target {
                None => Some(*own),
                Some(resolved) => Some(own.max(*resolved)),
            },
        },
    }
}

/// The latest time that the entries contribute, `None` when none contributes
/// any.
pub fn latest_mtime(entries: &Vec<EntryProbe>) -> (latest: Option<FileTimestamp>)
    ensures
        match latest {
            Some(t) => is_latest_of(entries@, t),
            None => none_contributes(entries@),
        },
{
    let mut latest: Option<FileTimestamp> = None;
    let mut i: usize = 0;
    while i < entries.len()
        invariant
            i <= entries@.len(),
            match latest {
                Some(t) => is_latest_of(entries@.take(i as int), t),
                None => none_contributes(entries@.take(i as int)),
            },
        decreases entries@.len() - i,
    {
        let ghost seen = entries@.take(i as int);
        let ghost next = entries@.take(i + 1);
        assert(forall|k: int| 0 <= k < i ==> next[k] == seen[k]);
        assert(next[i as int] == entries@[i as int]);
        let found = entry_mtime(&entries[i]);
        match found {
            None => {
                proof {
                    if let Some(t) = latest {
                        let w = choose|k: int|
                            0 <= k < seen.len() && candidate(#[trigger] seen[k]) == Some(t);
                        assert(candidate(next[w]) == Some(t));
                    }
                }
            },
            Some(here) => {
                match latest {
                    None => {
                        assert(candidate(next[i as int]) == Some(here));
                        latest = Some(here);
                    },
                    Some(t) => {
                        let m = t.max(here);
                        proof {
                            if m == t {
                                let w = choose|k: int|
                                    0 <= k < seen.len() && candidate(#[trigger] seen[k]) == Some(
                                        t,
                                    );
                                assert(candidate(next[w]) == Some(m));
                            } else {
                                assert(candidate(next[i as int]) == Some(m));
                            }
                            assert forall|k: int| 0 <= k < next.len() implies match candidate(
                                #[trigger] next[k],
                            ) {
                                Some(other) => other.not_after(m),
                                None => true,
                            } by {
                                if k < i {
                                    assert(next[k] == seen[k]);
                                    if let Some(other) = candidate(seen[k]) {
                                        lemma_order_transitive(other, t, m);
                                    }
                                }
                            }
                        }
                        latest = Some(m);
                    },
                }
            },
        }
        i += 1;
    }
    assert(entries@.take(i as int) =~= entries@);
    latest
}

/// The freshest modification time of what was scanned.
///
/// A file answers with its own time. A directory answers with the latest time
/// that the entries of its walk contribute; entries whose time could not be
/// read are passed over, and when nothing is left the directory's own time is
/// the answer.
pub fn mtime_recursive(scan: &TreeScan) -> (t: FileTimestamp)
    ensures
        is_freshest(*scan, t),
        scan matches TreeScan::File { mtime } ==> t == mtime,
        scan matches TreeScan::Directory { mtime, entries } ==> (none_contributes(entries@) ==> t
            == mtime),
{
    match scan {
        TreeScan::File { mtime } => *mtime,
        TreeScan::Directory { mtime, entries } => match latest_mtime(entries) {
            Some(t) => {
                assert(!none_contributes(entries@));
                t
            },
            None => *mtime,
        },
    }
}

/// There is one freshest time: two answers for the same scan are the same.
pub proof fn lemma_freshest_is_unique(scan: TreeScan, a: FileTimestamp, b: FileTimestamp)
    requires
        is_freshest(scan, a),
        is_freshest(scan, b),
    ensures
        a == b,
{
    if let TreeScan::Directory { mtime, entries } = scan {
        if !none_contributes(entries@) {
            let i = choose|i: int|
                0 <= i < entries@.len() && candidate(#[trigger] entries@[i]) == Some(a);
            let j = choose|j: int|
                0 <= j < entries@.len() && candidate(#[trigger] entries@[j]) == Some(b);
            lemma_order_antisymmetric(a, b);
        }
    }
}

/// A directory with nothing under it, as far as the walk could tell, answers
/// with its own time.
pub proof fn lemma_empty_directory_answers_with_own_time(
    mtime: FileTimestamp,
    entries: Vec<EntryProbe>,
    t: FileTimestamp,
)
    requires
        entries@.len() == 0,
        is_freshest(TreeScan::Directory { mtime, entries }, t),
    ensures
        t == mtime,
{
}

/// No entry whose time could be read is fresher than the answer.
pub proof fn lemma_freshest_covers_every_entry(
    mtime: FileTimestamp,
    entries: Vec<EntryProbe>,
    t: FileTimestamp,
    i: int,
)
    requires
        is_freshest(TreeScan::Directory { mtime, entries }, t),
        0 <= i < entries@.len(),
    ensures
        match candidate(entries@[i]) {
            Some(seen) => seen.not_after(t),
            None => true,
        },
{
}

/// Pointing a symbolic link somewhere else is seen: a link whose own time
/// could be read contributes at least that time, however old its target is,
/// and exactly that time when the target is not newer or cannot be read. So
/// the answer for a directory that holds the link is never older than the
/// link itself.
pub proof fn lemma_link_time_counts(
    mtime: FileTimestamp,
    entries: Vec<EntryProbe>,
    t: FileTimestamp,
    i: int,
    own: FileTimestamp,
    target: Option<FileTimestamp>,
)
    requires
        is_freshest(TreeScan::Directory { mtime, entries }, t),
        0 <= i < entries@.len(),
        entries@[i] == (EntryProbe::Symlink { link: Some(own), target }),
    ensures
        candidate(entries@[i]) is Some,
        own.not_after(candidate(entries@[i])->0),
        own.not_after(t),
        match target {
            Some(resolved) => resolved.not_after(own) ==> candidate(entries@[i]) == Some(own),
            None => candidate(entries@[i]) == Some(own),
        },
{
    let seen = candidate(entries@[i])->0;
    assert(!none_contributes(entries@));
    lemma_order_transitive(own, seen, t);
}

} // verus!
