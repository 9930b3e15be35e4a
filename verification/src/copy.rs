//! Planning the copy of a directory tree.
//!
//! The walk over the source is handed in as it was observed; what comes back
//! is the list of things to do at the destination, in the order in which to
//! do them.

use crate::path::{mirrored, relative_to, lemma_mirror_keeps_relative_path, TreePath};
use crate::tree::{walk_view, TreeEntry, TreeEntryView, WalkItem};
use vstd::prelude::*;

verus! {

/// One thing to do at the destination.
#[derive(Debug)]
pub enum CopyAction {
    /// Create the directory `path`, and every ancestor of it that is missing.
    CreateDir { path: TreePath },
    /// Copy the file at `from` to `to`.
    CopyFile { from: TreePath, to: TreePath },
}

/// A `CopyAction` as contracts see it.
pub enum CopyActionView {
    CreateDir { path: Seq<Seq<char>> },
    CopyFile { from: Seq<Seq<char>>, to: Seq<Seq<char>> },
}

impl CopyActionView {
    /// The path at the destination that the action brings into being.
    pub open spec fn target(self) -> Seq<Seq<char>> {
        match self {
            CopyActionView::CreateDir { path } => path,
            CopyActionView::CopyFile { to, .. } => to,
        }
    }
}

impl View for CopyAction {
    type V = CopyActionView;

    open spec fn view(&self) -> CopyActionView {
        match self {
            CopyAction::CreateDir { path } => CopyActionView::CreateDir { path: path@ },
            CopyAction::CopyFile { from, to } => CopyActionView::CopyFile { from: from@, to: to@ },
        }
    }
}

/// What has to be done for one entry found under `from` so that it appears
/// under `to`: a directory is created, anything else is copied from where it
/// was found, either way at the mirrored path.
pub open spec fn action_for(
    from: Seq<Seq<char>>,
    to: Seq<Seq<char>>,
    entry: TreeEntryView,
) -> CopyActionView {
    if entry.is_dir {
        CopyActionView::CreateDir { path: mirrored(from, to, entry.path) }
    } else {
        CopyActionView::CopyFile { from: entry.path, to: mirrored(from, to, entry.path) }
    }
}

/// Every step of `walk` before position `i` is an entry.
pub open spec fn readable_before(walk: Seq<Option<TreeEntryView>>, i: int) -> bool {
    forall|j: int| 0 <= j < i ==> (#[trigger] walk[j]) is Some
}

/// Every entry that the copy reaches, that is every entry with no unreadable
/// step before it, lies under `from`.
pub open spec fn walk_is_under(from: Seq<Seq<char>>, walk: Seq<Option<TreeEntryView>>) -> bool {
    forall|i: int|
        0 <= i < walk.len() && readable_before(walk, i) ==> match #[trigger] walk[i] {
            Some(entry) => from.is_prefix_of(entry.path),
            None => true,
        }
}

/// `actions` and `complete` are the plan for copying the tree under `from` to
/// `to`, for the given walk over `from`: one action for each entry, in walk
/// order, up to the first step that could not be read; complete when there is
/// no such step.
pub open spec fn is_plan_of(
    from: Seq<Seq<char>>,
    to: Seq<Seq<char>>,
    walk: Seq<Option<TreeEntryView>>,
    actions: Seq<CopyActionView>,
    complete: bool,
) -> bool {
    &&& actions.len() <= walk.len()
    &&& readable_before(walk, actions.len() as int)
    &&& forall|i: int|
        0 <= i < actions.len() ==> #[trigger] actions[i] == action_for(from, to, walk[i]->0)
    &&& complete <==> actions.len() == walk.len()
    &&& !complete ==> walk[actions.len() as int] is None
}

/// The action for one entry of a walk over `from`.
pub fn copy_action(from: &TreePath, to: &TreePath, entry: &TreeEntry) -> (action: CopyAction)
    requires
        from@.is_prefix_of(entry.path@),
    ensures
        action@ == action_for(from@, to@, entry@),
{
    let target = entry.path.mirror(from, to);
    if entry.is_dir {
        CopyAction::CreateDir { path: target }
    } else {
        CopyAction::CopyFile { from: entry.path.clone(), to: target }
    }
}

/// The actions that copy a tree, and whether the walk was read to its end.
#[derive(Debug)]
pub struct CopyPlan {
    pub actions: Vec<CopyAction>,
    pub complete: bool,
}

impl CopyPlan {
    /// The actions as contracts see them, in their order.
    pub open spec fn actions_view(&self) -> Seq<CopyActionView> {
        Seq::new(self.actions@.len(), |i: int| self.actions@[i]@)
    }
}

/// Plans the copy of the tree under `from` to `to`, given the walk over
/// `from`.
///
/// The plan holds one action for each entry, in walk order, up to the first
/// step that could not be read. It is complete when there is no such step;
/// otherwise the copy stops there, with what the actions before it have
/// already put in place.
pub fn copy_folder(from: &TreePath, to: &TreePath, walk: &Vec<WalkItem>) -> (plan: CopyPlan)
    requires
        walk_is_under(from@, walk_view(walk@)),
    ensures
        is_plan_of(from@, to@, walk_view(walk@), plan.actions_view(), plan.complete),
{
    let ghost steps = walk_view(walk@);
    let mut actions: Vec<CopyAction> = Vec::new();
    let mut i: usize = 0;
    while i < walk.len()
        invariant
            steps == walk_view(walk@),
            walk_is_under(from@, steps),
            i <= walk@.len(),
            actions@.len() == i,
            readable_before(steps, i as int),
            forall|k: int|
                0 <= k < i ==> (#[trigger] actions@[k])@ == action_for(from@, to@, steps[k]->0),
        decreases walk@.len() - i,
    {
        match &walk[i] {
            WalkItem::Entry(entry) => {
                assert(steps[i as int] == Some(entry@));
                let action = copy_action(from, to, entry);
                actions.push(action);
            },
            WalkItem::Unreadable => {
                assert(steps[i as int] is None);
                return CopyPlan { actions, complete: false };
            },
        }
        i += 1;
    }
    CopyPlan { actions, complete: true }
}

/// A plan for a walk that was read to its end mirrors the tree: every entry
/// has its action, whose target lies under `to` at the path at which the
/// entry lies under `from`; the action creates a directory exactly when the
/// entry is one, and otherwise copies from where the entry was found.
pub proof fn lemma_complete_plan_mirrors_tree(
    from: Seq<Seq<char>>,
    to: Seq<Seq<char>>,
    walk: Seq<Option<TreeEntryView>>,
    actions: Seq<CopyActionView>,
)
    requires
        walk_is_under(from, walk),
        is_plan_of(from, to, walk, actions, true),
    ensures
        actions.len() == walk.len(),
        forall|i: int|
            0 <= i < walk.len() ==> {
                let entry = walk[i]->0;
                let action = #[trigger] actions[i];
                &&& walk[i] is Some
                &&& to.is_prefix_of(action.target())
                &&& relative_to(action.target(), to) == relative_to(entry.path, from)
                &&& action is CreateDir <==> entry.is_dir
                &&& action matches CopyActionView::CopyFile { from: source, .. } ==> source
                    == entry.path
            },
{
    assert forall|i: int| 0 <= i < walk.len() implies {
        let entry = walk[i]->0;
        let action = #[trigger] actions[i];
        &&& walk[i] is Some
        &&& to.is_prefix_of(action.target())
        &&& relative_to(action.target(), to) == relative_to(entry.path, from)
        &&& action is CreateDir <==> entry.is_dir
        &&& action matches CopyActionView::CopyFile { from: source, .. } ==> source == entry.path
    } by {
        assert(walk[i] is Some);
        assert(readable_before(walk, i));
        lemma_mirror_keeps_relative_path(from, to, (walk[i]->0).path);
    }
}

/// A plan never does anything for what comes after an unreadable step: the
/// number of its actions is the number of entries before the first such step.
pub proof fn lemma_plan_stops_at_first_failure(
    from: Seq<Seq<char>>,
    to: Seq<Seq<char>>,
    walk: Seq<Option<TreeEntryView>>,
    actions: Seq<CopyActionView>,
    complete: bool,
    failed: int,
)
    requires
        is_plan_of(from, to, walk, actions, complete),
        0 <= failed < walk.len(),
        walk[failed] is None,
    ensures
        !complete,
        actions.len() <= failed,
{
    if actions.len() > failed {
        assert(walk[failed] is Some);
    }
}

} // verus!
