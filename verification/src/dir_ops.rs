//! Directory-level decisions: moving data back from the workspace, and the
//! breadth-first walk that merges one directory tree into another.
use vstd::prelude::*;

use crate::link_ops::{FsStep, LinkError};
use crate::link_status::PathState;
use crate::platform;

verus! {

/// The steps that move the data at the target back to the source: the
/// source's parents first, then a directory is copied and removed, and
/// anything else is renamed.
pub open spec fn move_back_steps(target_is_dir: bool) -> Seq<FsStep> {
    if target_is_dir {
        seq![FsStep::EnsureSourceParent, FsStep::CopyTargetDirToSource, FsStep::RemoveTarget]
    } else {
        seq![FsStep::EnsureSourceParent, FsStep::RenameTargetToSource]
    }
}

/// Directory operations.
pub struct DirOps;

impl DirOps {
    /// The steps that move the data at the target back to the source, given
    /// what was observed of the target; refused when nothing is there.
    pub fn move_back(target: &PathState) -> (res: Result<Vec<FsStep>, LinkError>)
        ensures
            match res {
                Ok(v) => target.exists && v@ == move_back_steps(target.is_dir),
                Err(e) => !target.exists && e == LinkError::NothingToMoveBack,
            },
    {
        if !target.exists {
            return Err(LinkError::NothingToMoveBack);
        }
        let mut steps: Vec<FsStep> = Vec::new();
        steps.push(FsStep::EnsureSourceParent);
        if target.is_dir {
            steps.push(FsStep::CopyTargetDirToSource);
            steps.push(FsStep::RemoveTarget);
        } else {
            steps.push(FsStep::RenameTargetToSource);
        }
        assert(steps@ =~= move_back_steps(target.is_dir));
        Ok(steps)
    }
}

/// What to do with one entry of a directory being merged.
#[derive(Clone, Copy, Debug, PartialEq, Eq, Structural)]
pub enum MergeAction {
    /// A directory: its pair of paths joins the walk.
    Descend,
    /// A file the destination lacks: copy it.
    Copy,
    /// A file the destination already has: leave the destination's.
    Keep,
}

/// What to do on entering a directory pair of the walk, before its entries
/// are visited.
#[derive(Clone, Copy, Debug, PartialEq, Eq, Structural)]
pub enum DirStep {
    /// The destination directory is missing: create it, with its parents.
    CreateDestination,
    /// The destination is there: go on with the entries.
    Ready,
}

/// The step on entering a directory pair, given whether the destination
/// exists.
pub open spec fn dir_step(dst_exists: bool) -> DirStep {
    if dst_exists {
        DirStep::Ready
    } else {
        DirStep::CreateDestination
    }
}

/// One visited entry: the action and the entry's two paths.
pub struct MergeEntry {
    pub action: MergeAction,
    pub src_path: String,
    pub dst_path: String,
}

/// Why a merge is refused.
#[derive(Clone, Copy, Debug, PartialEq, Eq, Structural)]
pub enum MergeError {
    /// Merging needs a directory at both paths.
    NotDirectories,
}

/// The action for an entry.
pub open spec fn merge_action(entry_is_dir: bool, dst_exists: bool) -> MergeAction {
    if entry_is_dir {
        MergeAction::Descend
    } else if !dst_exists {
        MergeAction::Copy
    } else {
        MergeAction::Keep
    }
}

/// A pair of paths taken as text.
pub open spec fn pair_view(p: (String, String)) -> (Seq<char>, Seq<char>) {
    (p.0@, p.1@)
}

/// The breadth-first walk of a merge: the queue of directory pairs still to
/// visit, source directory first.
pub struct MergeWalk {
    queue: Vec<(String, String)>,
    next: usize,
}

impl MergeWalk {
    /// The walk's position lies within its queue.
    #[verifier::type_invariant]
    spec fn inv(self) -> bool {
        self.next <= self.queue@.len()
    }

    /// The directory pairs still to visit, in order.
    pub closed spec fn pending(self) -> Seq<(Seq<char>, Seq<char>)> {
        self.queue@.skip(self.next as int).map_values(|p: (String, String)| pair_view(p))
    }

    /// Starts merging `source` into `target`; both must be directories.
    pub fn start(source: &str, target: &str, source_state: &PathState, target_state: &PathState) -> (res:
        Result<MergeWalk, MergeError>)
        ensures
            match res {
                Ok(w) => source_state.is_dir && target_state.is_dir && w.pending() == seq![
                    (source@, target@),
                ],
                Err(_) => !(source_state.is_dir && target_state.is_dir),
            },
    {
        if !source_state.is_dir || !target_state.is_dir {
            return Err(MergeError::NotDirectories);
        }
        let mut queue: Vec<(String, String)> = Vec::new();
        queue.push((String::from_str(source), String::from_str(target)));
        let w = MergeWalk { queue, next: 0 };
        assert(w.queue@.skip(0) =~= w.queue@);
        assert(w.pending() =~= seq![(source@, target@)]);
        Ok(w)
    }

    /// Takes the next directory pair to visit, if any.
    pub fn next_dir(&mut self) -> (res: Option<(String, String)>)
        ensures
            old(self).pending().len() == 0 ==> res is None && final(self).pending() == old(
                self,
            ).pending(),
            old(self).pending().len() > 0 ==> res is Some && pair_view(res->0) == old(
                self,
            ).pending()[0] && final(self).pending() == old(self).pending().drop_first(),
    {
        proof {
            use_type_invariant(&*self);
        }
        if self.next >= self.queue.len() {
            return None;
        }
        let pair = (self.queue[self.next].0.clone(), self.queue[self.next].1.clone());
        let ghost before = self.queue@.skip(self.next as int);
        self.next = self.next + 1;
        proof {
            assert(self.queue@.skip(self.next as int) =~= before.drop_first());
            assert(pair_view(pair) == pair_view(before[0]));
        }
        Some(pair)
    }

    /// What to do on entering a directory pair taken from the walk, given
    /// whether its destination directory exists: a missing one is created
    /// before the entries are visited.
    pub fn enter_dir(dst_exists: bool) -> (res: DirStep)
        ensures
            res == dir_step(dst_exists),
    {
        if dst_exists {
            DirStep::Ready
        } else {
            DirStep::CreateDestination
        }
    }

    /// Visits an entry `name` of the source directory `src_dir`, merged into
    /// `dst_dir`: a directory joins the walk; a file is copied only when the
    /// destination lacks it, so nothing in the destination is overwritten.
    pub fn visit_entry(
        &mut self,
        src_dir: &str,
        dst_dir: &str,
        name: &str,
        entry_is_dir: bool,
        dst_exists: bool,
    ) -> (res: MergeEntry)
        ensures
            res.action == merge_action(entry_is_dir, dst_exists),
            res.src_path@ == platform::joined_path(src_dir@, name@),
            res.dst_path@ == platform::joined_path(dst_dir@, name@),
            final(self).pending() == if entry_is_dir {
                old(self).pending().push((res.src_path@, res.dst_path@))
            } else {
                old(self).pending()
            },
    {
        let src_path = platform::path_join(src_dir, name);
        let dst_path = platform::path_join(dst_dir, name);
        proof {
            use_type_invariant(&*self);
        }
        if entry_is_dir {
            let ghost before = self.queue@;
            let mut taken = MergeWalk { queue: Vec::new(), next: 0 };
            std::mem::swap(&mut taken, self);
            proof {
                use_type_invariant(&taken);
            }
            let MergeWalk { mut queue, next } = taken;
            queue.push((src_path.clone(), dst_path.clone()));
            *self = MergeWalk { queue, next };
            proof {
                assert(self.queue@.skip(self.next as int) =~= before.skip(self.next as int).push(
                    (src_path, dst_path),
                ));
                assert(self.pending() =~= old(self).pending().push((src_path@, dst_path@)));
            }
            MergeEntry { action: MergeAction::Descend, src_path, dst_path }
        } else if !dst_exists {
            MergeEntry { action: MergeAction::Copy, src_path, dst_path }
        } else {
            MergeEntry { action: MergeAction::Keep, src_path, dst_path }
        }
    }
}

/// A merge never overwrites: a file is copied only where the destination
/// lacks it, and an existing destination file is kept.
pub proof fn lemma_merge_never_overwrites(entry_is_dir: bool, dst_exists: bool)
    ensures
        merge_action(entry_is_dir, dst_exists) == MergeAction::Copy ==> !dst_exists,
        !entry_is_dir && dst_exists ==> merge_action(entry_is_dir, dst_exists)
            == MergeAction::Keep,
{
}

/// An entry of a directory tree: a directory, or a file with an identity
/// for its contents.
pub enum TreeNode {
    Dir,
    File { id: int },
}

/// A directory tree as the listing of its entries, each with its path
/// relative to the tree's root.
pub open spec fn tree_of(entries: Seq<(Seq<char>, TreeNode)>) -> Map<Seq<char>, TreeNode>
    decreases entries.len(),
{
    if entries.len() == 0 {
        Map::empty()
    } else {
        tree_of(entries.drop_last()).insert(entries.last().0, entries.last().1)
    }
}

/// No two entries of a listing share a relative path.
pub open spec fn paths_distinct(entries: Seq<(Seq<char>, TreeNode)>) -> bool {
    forall|i: int, j: int|
        0 <= i < j < entries.len() ==> (#[trigger] entries[i]).0 != (#[trigger] entries[j]).0
}

/// The destination tree after the walk has dealt with one source entry: a
/// directory is created on entering its pair when the destination lacks it
/// (`dir_step`), and a file is copied in when its action is `Copy`
/// (`merge_action`); otherwise the tree is left as it is.
pub open spec fn merge_entry(tree: Map<Seq<char>, TreeNode>, entry: (Seq<char>, TreeNode)) -> Map<
    Seq<char>,
    TreeNode,
> {
    let present = tree.contains_key(entry.0);
    match entry.1 {
        TreeNode::Dir => match dir_step(present) {
            DirStep::CreateDestination => tree.insert(entry.0, TreeNode::Dir),
            DirStep::Ready => tree,
        },
        TreeNode::File { id } => match merge_action(false, present) {
            MergeAction::Copy => tree.insert(entry.0, entry.1),
            _ => tree,
        },
    }
}

/// The destination tree after the walk has dealt with the source entries in
/// order.
pub open spec fn merge_entries(tree: Map<Seq<char>, TreeNode>, entries: Seq<(Seq<char>, TreeNode)>) -> Map<
    Seq<char>,
    TreeNode,
>
    decreases entries.len(),
{
    if entries.len() == 0 {
        tree
    } else {
        merge_entry(merge_entries(tree, entries.drop_last()), entries.last())
    }
}

proof fn lemma_tree_of_paths(entries: Seq<(Seq<char>, TreeNode)>)
    ensures
        forall|p: Seq<char>|
            #[trigger] tree_of(entries).contains_key(p) <==> exists|i: int|
                0 <= i < entries.len() && entries[i].0 == p,
    decreases entries.len(),
{
    if entries.len() > 0 {
        let rest = entries.drop_last();
        lemma_tree_of_paths(rest);
        assert forall|p: Seq<char>|
            #[trigger] tree_of(entries).contains_key(p) <==> exists|i: int|
                0 <= i < entries.len() && entries[i].0 == p by {
            if tree_of(entries).contains_key(p) {
                if p == entries.last().0 {
                    assert(entries[entries.len() - 1].0 == p);
                } else {
                    assert(tree_of(rest).contains_key(p));
                    let i = choose|i: int| 0 <= i < rest.len() && rest[i].0 == p;
                    assert(entries[i].0 == p);
                }
            }
            if exists|i: int| 0 <= i < entries.len() && entries[i].0 == p {
                let i = choose|i: int| 0 <= i < entries.len() && entries[i].0 == p;
                if i < entries.len() - 1 {
                    assert(rest[i].0 == p);
                    assert(tree_of(rest).contains_key(p));
                }
            }
        }
    }
}

/// Merging a source tree into a destination tree gives the union of the two
/// trees, where the destination's entry is kept wherever both hold one:
/// everything in the destination stays as it was, every source directory
/// that the destination lacks is created, and every source file that it
/// lacks is copied in.
pub proof fn lemma_merge_is_union(
    target: Map<Seq<char>, TreeNode>,
    entries: Seq<(Seq<char>, TreeNode)>,
)
    requires
        paths_distinct(entries),
    ensures
        merge_entries(target, entries) == tree_of(entries).union_prefer_right(target),
    decreases entries.len(),
{
    if entries.len() == 0 {
        assert(tree_of(entries).union_prefer_right(target) =~= target);
    } else {
        let rest = entries.drop_last();
        let e = entries.last();
        assert(paths_distinct(rest)) by {
            assert forall|i: int, j: int| 0 <= i < j < rest.len() implies (#[trigger] rest[i]).0
                != (#[trigger] rest[j]).0 by {
                assert(rest[i] == entries[i] && rest[j] == entries[j]);
            }
        }
        lemma_merge_is_union(target, rest);
        lemma_tree_of_paths(rest);
        let before = tree_of(rest).union_prefer_right(target);
        if !target.contains_key(e.0) {
            assert(!tree_of(rest).contains_key(e.0)) by {
                if tree_of(rest).contains_key(e.0) {
                    let i = choose|i: int| 0 <= i < rest.len() && rest[i].0 == e.0;
                    assert(entries[i].0 != entries[entries.len() - 1].0);
                }
            }
            match e.1 {
                TreeNode::Dir => assert(merge_entries(target, entries) == before.insert(e.0, e.1)),
                TreeNode::File { .. } => assert(merge_entries(target, entries) == before.insert(
                    e.0,
                    e.1,
                )),
            }
        } else {
            assert(merge_entries(target, entries) == before);
        }
        assert(merge_entries(target, entries) =~= tree_of(entries).union_prefer_right(target));
    }
}

} // verus!
