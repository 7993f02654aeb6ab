//! A model of the two paths of a link, and the laws that link and unlink
//! plans obey in it.
//!
//! The model records, for the source and the target, whether the path is
//! missing, holds data (a directory or a file, with an identity for its
//! contents), or, for the source, is a symbolic link to the target. Applying
//! a plan's steps to the model shows where the data ends up.
use vstd::prelude::*;

use crate::dir_ops::move_back_steps;
use crate::link_ops::{
    link_plan, link_step, prepare_steps, unlink_plan, FsStep, LinkError, LinkRequest, LinkSnapshot, LinkType,
    OnExists, UnlinkSnapshot,
};
use crate::link_status::{status_of, LinkStatus, PathState};

verus! {

/// What is at a path.
pub enum Node {
    /// Nothing.
    Missing,
    /// Data with contents `id`; a directory when `dir`.
    Data { id: int, dir: bool },
    /// A symbolic link to the target (only ever at the source).
    Link,
}

/// The two paths of a link.
pub struct Paths {
    pub source: Node,
    pub target: Node,
}

/// What `Path::exists`, `Path::is_symlink` and `Path::is_dir` report for a
/// node, where a link is followed to the target.
pub open spec fn observe(n: Node, target: Node) -> PathState {
    match n {
        Node::Missing => PathState { exists: false, is_symlink: false, is_dir: false },
        Node::Data { id, dir } => PathState { exists: true, is_symlink: false, is_dir: dir },
        Node::Link => PathState {
            exists: target is Data,
            is_symlink: true,
            is_dir: target matches Node::Data { dir, .. } && dir,
        },
    }
}

/// What linking `req` observes of the model.
pub open spec fn link_snapshot(req: LinkRequest, p: Paths) -> LinkSnapshot {
    LinkSnapshot {
        source: observe(p.source, p.target),
        target: observe(p.target, Node::Missing),
        source_link: if p.source is Link {
            Some(req.target)
        } else {
            None
        },
    }
}

/// What unlinking observes of the model.
pub open spec fn unlink_snapshot(p: Paths) -> UnlinkSnapshot {
    UnlinkSnapshot { source: observe(p.source, p.target), target: observe(p.target, Node::Missing) }
}

/// The effect of one step. The model gives a whole tree one identity, so a
/// merge leaves the target's node as it is and empties the source; what the
/// merged tree holds file by file is `dir_ops::lemma_merge_is_union`.
pub open spec fn apply(p: Paths, step: FsStep) -> Paths {
    match step {
        FsStep::RemoveSource => Paths { source: Node::Missing, ..p },
        FsStep::RemoveTarget => Paths { target: Node::Missing, ..p },
        FsStep::MergeSourceIntoTarget => Paths { source: Node::Missing, ..p },
        FsStep::EnsureTargetParent => p,
        FsStep::MoveSourceToTarget => Paths { source: Node::Missing, target: p.source },
        FsStep::CreateTargetDir => Paths { target: Node::Data { id: -1, dir: true }, ..p },
        FsStep::SymlinkSourceToTarget => Paths { source: Node::Link, ..p },
        FsStep::HardlinkSourceToTarget => Paths { source: p.target, ..p },
        FsStep::EnsureSourceParent => p,
        FsStep::CopyTargetDirToSource => Paths { source: p.target, ..p },
        FsStep::RenameTargetToSource => Paths { source: p.target, target: Node::Missing },
    }
}

/// The effect of a sequence of steps, in order.
pub open spec fn apply_all(p: Paths, steps: Seq<FsStep>) -> Paths
    decreases steps.len(),
{
    if steps.len() == 0 {
        p
    } else {
        apply(apply_all(p, steps.drop_last()), steps.last())
    }
}

/// The outcome of linking in the model: the paths after the plan, or the
/// refusal.
pub open spec fn link_outcome(req: LinkRequest, p: Paths) -> Result<Paths, LinkError> {
    match link_plan(req, link_snapshot(req, p)) {
        Ok(steps) => Ok(apply_all(p, steps)),
        Err(e) => Err(e),
    }
}

/// The outcome of unlinking in the model.
pub open spec fn unlink_outcome(keep_files: bool, p: Paths) -> Result<Paths, LinkError> {
    match unlink_plan(keep_files, unlink_snapshot(p)) {
        Ok(steps) => Ok(apply_all(p, steps)),
        Err(e) => Err(e),
    }
}

proof fn lemma_apply_push(p: Paths, s: Seq<FsStep>, x: FsStep)
    ensures
        apply_all(p, s.push(x)) == apply(apply_all(p, s), x),
{
    assert(s.push(x).drop_last() =~= s);
    assert(s.push(x).last() == x);
}

proof fn lemma_apply_one(p: Paths, a: FsStep)
    ensures
        apply_all(p, seq![a]) == apply(p, a),
{
    assert(apply_all(p, Seq::<FsStep>::empty()) == p);
    lemma_apply_push(p, Seq::<FsStep>::empty(), a);
    assert(Seq::<FsStep>::empty().push(a) =~= seq![a]);
}

proof fn lemma_apply_two(p: Paths, a: FsStep, b: FsStep)
    ensures
        apply_all(p, seq![a, b]) == apply(apply(p, a), b),
{
    lemma_apply_one(p, a);
    lemma_apply_push(p, seq![a], b);
    assert(seq![a].push(b) =~= seq![a, b]);
}

proof fn lemma_apply_three(p: Paths, a: FsStep, b: FsStep, c: FsStep)
    ensures
        apply_all(p, seq![a, b, c]) == apply(apply(apply(p, a), b), c),
{
    lemma_apply_two(p, a, b);
    lemma_apply_push(p, seq![a, b], c);
    assert(seq![a, b].push(c) =~= seq![a, b, c]);
}

proof fn lemma_apply_four(p: Paths, a: FsStep, b: FsStep, c: FsStep, d: FsStep)
    ensures
        apply_all(p, seq![a, b, c, d]) == apply(apply(apply(apply(p, a), b), c), d),
{
    lemma_apply_three(p, a, b, c);
    lemma_apply_push(p, seq![a, b, c], d);
    assert(seq![a, b, c].push(d) =~= seq![a, b, c, d]);
}

/// Linking moves a source's data into the workspace and leaves a symbolic
/// link in its place: from data at the source and nothing at the target, a
/// symbolic-link request ends with the link at the source and the data at
/// the target, whatever the strategy and `force`.
pub proof fn lemma_link_moves_data(req: LinkRequest, id: int, dir: bool)
    requires
        req.link_type == LinkType::Symlink,
    ensures
        link_outcome(req, Paths { source: Node::Data { id, dir }, target: Node::Missing }) == Ok::<
            Paths,
            LinkError,
        >(Paths { source: Node::Link, target: Node::Data { id, dir } }),
{
    let p = Paths { source: Node::Data { id, dir }, target: Node::Missing };
    let steps = seq![
        FsStep::EnsureTargetParent,
        FsStep::MoveSourceToTarget,
        FsStep::SymlinkSourceToTarget,
    ];
    assert(link_plan(req, link_snapshot(req, p)) == Ok::<Seq<FsStep>, LinkError>(steps));
    lemma_apply_three(p, steps[0], steps[1], steps[2]);
}

/// `Replace` drops an existing target and moves the source's data there
/// before linking.
pub proof fn lemma_replace_moves_data(req: LinkRequest, id: int, dir: bool, old_id: int, old_dir: bool)
    requires
        req.link_type == LinkType::Symlink,
        req.on_exists == OnExists::Replace,
    ensures
        link_outcome(
            req,
            Paths { source: Node::Data { id, dir }, target: Node::Data { id: old_id, dir: old_dir } },
        ) == Ok::<Paths, LinkError>(Paths { source: Node::Link, target: Node::Data { id, dir } }),
{
    let p = Paths { source: Node::Data { id, dir }, target: Node::Data { id: old_id, dir: old_dir } };
    let steps = seq![
        FsStep::RemoveTarget,
        FsStep::EnsureTargetParent,
        FsStep::MoveSourceToTarget,
        FsStep::SymlinkSourceToTarget,
    ];
    assert(link_plan(req, link_snapshot(req, p)) == Ok::<Seq<FsStep>, LinkError>(steps)) by {
        assert(seq![FsStep::RemoveTarget] + seq![
            FsStep::EnsureTargetParent,
            FsStep::MoveSourceToTarget,
            FsStep::SymlinkSourceToTarget,
        ] =~= steps);
    }
    lemma_apply_four(p, steps[0], steps[1], steps[2], steps[3]);
}

/// `Overwrite` drops the source's data, keeps the existing target, and links
/// to it.
pub proof fn lemma_overwrite_keeps_target(
    req: LinkRequest,
    id: int,
    dir: bool,
    old_id: int,
    old_dir: bool,
)
    requires
        req.link_type == LinkType::Symlink,
        req.on_exists == OnExists::Overwrite,
    ensures
        link_outcome(
            req,
            Paths { source: Node::Data { id, dir }, target: Node::Data { id: old_id, dir: old_dir } },
        ) == Ok::<Paths, LinkError>(
            Paths { source: Node::Link, target: Node::Data { id: old_id, dir: old_dir } },
        ),
{
    let p = Paths { source: Node::Data { id, dir }, target: Node::Data { id: old_id, dir: old_dir } };
    let steps = seq![FsStep::RemoveSource, FsStep::SymlinkSourceToTarget];
    assert(link_plan(req, link_snapshot(req, p)) == Ok::<Seq<FsStep>, LinkError>(steps)) by {
        assert(seq![FsStep::RemoveSource] + seq![FsStep::SymlinkSourceToTarget] =~= steps);
    }
    lemma_apply_two(p, steps[0], steps[1]);
}

/// Unlinking undoes linking: after a symbolic link has been made from data
/// at the source into a missing target, unlinking without keeping the files
/// puts the same data back at the source and leaves nothing at the target.
pub proof fn lemma_unlink_undoes_link(req: LinkRequest, id: int, dir: bool)
    requires
        req.link_type == LinkType::Symlink,
    ensures
        link_outcome(req, Paths { source: Node::Data { id, dir }, target: Node::Missing }) matches Ok(
            linked,
        ) && unlink_outcome(false, linked) == Ok::<Paths, LinkError>(
            Paths { source: Node::Data { id, dir }, target: Node::Missing },
        ),
{
    lemma_link_moves_data(req, id, dir);
    let linked = Paths { source: Node::Link, target: Node::Data { id, dir } };
    let snap = unlink_snapshot(linked);
    if dir {
        let steps = seq![
            FsStep::RemoveSource,
            FsStep::EnsureSourceParent,
            FsStep::CopyTargetDirToSource,
            FsStep::RemoveTarget,
        ];
        assert(unlink_plan(false, snap) == Ok::<Seq<FsStep>, LinkError>(steps)) by {
            assert(seq![FsStep::RemoveSource] + move_back_steps(true) =~= steps);
        }
        lemma_apply_four(linked, steps[0], steps[1], steps[2], steps[3]);
    } else {
        let steps = seq![
            FsStep::RemoveSource,
            FsStep::EnsureSourceParent,
            FsStep::RenameTargetToSource,
        ];
        assert(unlink_plan(false, snap) == Ok::<Seq<FsStep>, LinkError>(steps)) by {
            assert(seq![FsStep::RemoveSource] + move_back_steps(false) =~= steps);
        }
        lemma_apply_three(linked, steps[0], steps[1], steps[2]);
    }
}

/// Linking what is already linked changes nothing: without `force`, a source
/// that is a symbolic link to the request's target gives an empty plan.
pub proof fn lemma_link_idempotent(req: LinkRequest, p: Paths)
    requires
        !req.force,
        p.source is Link,
    ensures
        link_plan(req, link_snapshot(req, p)) == Ok::<Seq<FsStep>, LinkError>(Seq::empty()),
{
}

/// After a symbolic link has been made from data at the source into a
/// missing target, the link is reported in place; after unlinking, only the
/// source holds data.
pub proof fn lemma_status_after_link_and_unlink(req: LinkRequest, id: int, dir: bool)
    requires
        req.link_type == LinkType::Symlink,
    ensures
        ({
            let linked = Paths { source: Node::Link, target: Node::Data { id, dir } };
            let restored = Paths { source: Node::Data { id, dir }, target: Node::Missing };
            &&& status_of(observe(linked.source, linked.target), observe(linked.target, Node::Missing))
                == LinkStatus::Linked
            &&& status_of(
                observe(restored.source, restored.target),
                observe(restored.target, Node::Missing),
            ) == LinkStatus::SourceOnly
        }),
{
}

/// The target is removed only under the `Replace` strategy.
pub proof fn lemma_only_replace_removes_target(req: LinkRequest, snap: LinkSnapshot)
    ensures
        match link_plan(req, snap) {
            Ok(steps) => steps.contains(FsStep::RemoveTarget) ==> req.on_exists
                == OnExists::Replace,
            Err(_) => true,
        },
{
    match link_plan(req, snap) {
        Ok(steps) => {
            if steps.contains(FsStep::RemoveTarget) {
                let i = choose|i: int| 0 <= i < steps.len() && steps[i] == FsStep::RemoveTarget;
                if req.on_exists != OnExists::Replace {
                    assert(steps[i] != FsStep::RemoveTarget);
                }
            }
        },
        Err(_) => {},
    }
}

/// The source is removed only when it is a symbolic link that `force`
/// replaces, or under the `Overwrite` strategy.
pub proof fn lemma_source_removed_only_when_asked(req: LinkRequest, snap: LinkSnapshot)
    ensures
        match link_plan(req, snap) {
            Ok(steps) => steps.contains(FsStep::RemoveSource) ==> (snap.source.is_symlink
                && req.force) || req.on_exists == OnExists::Overwrite,
            Err(_) => true,
        },
{
    match link_plan(req, snap) {
        Ok(steps) => {
            if steps.contains(FsStep::RemoveSource) {
                let i = choose|i: int| 0 <= i < steps.len() && steps[i] == FsStep::RemoveSource;
                if !(snap.source.is_symlink && req.force) && req.on_exists != OnExists::Overwrite {
                    assert(steps[i] != FsStep::RemoveSource);
                }
            }
        },
        Err(_) => {},
    }
}

/// Every plan that does something ends by creating the requested link.
pub proof fn lemma_plan_ends_with_link(req: LinkRequest, snap: LinkSnapshot)
    ensures
        match link_plan(req, snap) {
            Ok(steps) => steps.len() > 0 ==> steps.last() == link_step(req.link_type),
            Err(_) => true,
        },
{
}

/// With `Skip`, a target that exists while the source holds data leaves
/// everything untouched.
pub proof fn lemma_skip_touches_nothing(req: LinkRequest, snap: LinkSnapshot)
    requires
        req.on_exists == OnExists::Skip,
        !snap.source.is_symlink,
        snap.source.exists,
        snap.target.exists,
    ensures
        link_plan(req, snap) == Ok::<Seq<FsStep>, LinkError>(Seq::empty()),
{
    assert(Seq::<FsStep>::empty() =~= Seq::empty());
}

/// Keeping the files, unlinking never touches the target.
pub proof fn lemma_keep_files_spares_target(snap: UnlinkSnapshot)
    ensures
        match unlink_plan(true, snap) {
            Ok(steps) => forall|i: int| 0 <= i < steps.len() ==> steps[i] == FsStep::RemoveSource,
            Err(_) => true,
        },
{
}

/// The status that is observed of the two paths.
pub open spec fn status_in(p: Paths) -> LinkStatus {
    status_of(observe(p.source, p.target), observe(p.target, Node::Missing))
}

/// Linking ends with a working link whenever the source holds no data of its
/// own: from a missing source, or with `force` from a source that is a
/// symbolic link (broken or not), the plan is carried out, the target holds
/// data afterwards (what it held before, or a new directory where nothing
/// was), and the source is a symbolic link to it, so the status is `Linked`;
/// for a hard link the source then holds the target's data.
pub proof fn lemma_link_without_source_data_ends_linked(req: LinkRequest, p: Paths)
    requires
        !(p.target is Link),
        p.source is Missing || (p.source is Link && req.force),
    ensures
        link_outcome(req, p) matches Ok(after) && after.target is Data && (p.target is Data
            ==> after.target == p.target) && (req.link_type == LinkType::Symlink ==> after.source
            is Link && status_in(after) == LinkStatus::Linked) && (req.link_type
            == LinkType::Hardlink ==> after.source == after.target),
{
    let snap = link_snapshot(req, p);
    let link = link_step(req.link_type);
    if p.source is Link {
        if p.target is Missing {
            let steps = seq![
                FsStep::RemoveSource,
                FsStep::EnsureTargetParent,
                FsStep::CreateTargetDir,
                link,
            ];
            assert(link_plan(req, snap) == Ok::<Seq<FsStep>, LinkError>(steps)) by {
                assert(seq![FsStep::RemoveSource] + prepare_steps(false) + seq![link] =~= steps);
            }
            lemma_apply_four(p, steps[0], steps[1], steps[2], steps[3]);
        } else {
            let steps = seq![FsStep::RemoveSource, FsStep::EnsureTargetParent, link];
            assert(link_plan(req, snap) == Ok::<Seq<FsStep>, LinkError>(steps)) by {
                assert(seq![FsStep::RemoveSource] + prepare_steps(true) + seq![link] =~= steps);
            }
            lemma_apply_three(p, steps[0], steps[1], steps[2]);
        }
    } else {
        if p.target is Missing {
            let steps = seq![FsStep::EnsureTargetParent, FsStep::CreateTargetDir, link];
            assert(link_plan(req, snap) == Ok::<Seq<FsStep>, LinkError>(steps)) by {
                assert(prepare_steps(false) + seq![link] =~= steps);
            }
            lemma_apply_three(p, steps[0], steps[1], steps[2]);
        } else {
            let steps = seq![FsStep::EnsureTargetParent, link];
            assert(link_plan(req, snap) == Ok::<Seq<FsStep>, LinkError>(steps)) by {
                assert(prepare_steps(true) + seq![link] =~= steps);
            }
            lemma_apply_two(p, steps[0], steps[1]);
        }
    }
}

/// Unlinking a source that is a symbolic link is never refused: the plan
/// starts by removing the link, and when the target is missing that is all
/// it does, whether or not the files are kept.
pub proof fn lemma_unlink_of_link_never_refused(keep_files: bool, snap: UnlinkSnapshot)
    requires
        snap.source.is_symlink,
    ensures
        unlink_plan(keep_files, snap) matches Ok(steps) && steps.len() > 0 && steps[0]
            == FsStep::RemoveSource,
        !snap.target.exists ==> unlink_plan(keep_files, snap) == Ok::<Seq<FsStep>, LinkError>(
            seq![FsStep::RemoveSource],
        ),
{
}

/// Unlinking a symbolic link removes it: afterwards the source is no link.
/// A broken link leaves nothing behind; with the files kept, the target is
/// left as it was.
pub proof fn lemma_unlink_removes_link(keep_files: bool, target: Node)
    requires
        !(target is Link),
    ensures
        ({
            let p = Paths { source: Node::Link, target };
            &&& unlink_outcome(keep_files, p) matches Ok(after) && !(after.source is Link)
            &&& target is Missing ==> unlink_outcome(keep_files, p) == Ok::<Paths, LinkError>(
                Paths { source: Node::Missing, target: Node::Missing },
            )
            &&& keep_files ==> unlink_outcome(keep_files, p) == Ok::<Paths, LinkError>(
                Paths { source: Node::Missing, target },
            )
        }),
{
    let p = Paths { source: Node::Link, target };
    let snap = unlink_snapshot(p);
    if !keep_files && snap.target.exists {
        if snap.target.is_dir {
            let steps = seq![
                FsStep::RemoveSource,
                FsStep::EnsureSourceParent,
                FsStep::CopyTargetDirToSource,
                FsStep::RemoveTarget,
            ];
            assert(unlink_plan(keep_files, snap) == Ok::<Seq<FsStep>, LinkError>(steps)) by {
                assert(seq![FsStep::RemoveSource] + move_back_steps(true) =~= steps);
            }
            lemma_apply_four(p, steps[0], steps[1], steps[2], steps[3]);
        } else {
            let steps = seq![
                FsStep::RemoveSource,
                FsStep::EnsureSourceParent,
                FsStep::RenameTargetToSource,
            ];
            assert(unlink_plan(keep_files, snap) == Ok::<Seq<FsStep>, LinkError>(steps)) by {
                assert(seq![FsStep::RemoveSource] + move_back_steps(false) =~= steps);
            }
            lemma_apply_three(p, steps[0], steps[1], steps[2]);
        }
    } else {
        lemma_apply_one(p, FsStep::RemoveSource);
    }
}

/// `Merge` folds the source into the existing target and links to it: the
/// target keeps its node (what the merged tree holds is
/// `dir_ops::lemma_merge_is_union`), and the source becomes the link.
pub proof fn lemma_merge_links_to_target(req: LinkRequest, id: int, dir: bool, old_id: int, old_dir: bool)
    requires
        req.link_type == LinkType::Symlink,
        req.on_exists == OnExists::Merge,
    ensures
        link_outcome(
            req,
            Paths { source: Node::Data { id, dir }, target: Node::Data { id: old_id, dir: old_dir } },
        ) == Ok::<Paths, LinkError>(
            Paths { source: Node::Link, target: Node::Data { id: old_id, dir: old_dir } },
        ),
{
    let p = Paths { source: Node::Data { id, dir }, target: Node::Data { id: old_id, dir: old_dir } };
    let steps = seq![FsStep::MergeSourceIntoTarget, FsStep::SymlinkSourceToTarget];
    assert(link_plan(req, link_snapshot(req, p)) == Ok::<Seq<FsStep>, LinkError>(steps)) by {
        assert(seq![FsStep::MergeSourceIntoTarget] + seq![FsStep::SymlinkSourceToTarget] =~= steps);
    }
    lemma_apply_two(p, steps[0], steps[1]);
}

/// Unlinking refuses a source that holds data of its own and is no link,
/// whatever the target and `keep_files`, and so changes nothing there.
pub proof fn lemma_unlink_refuses_plain_source(keep_files: bool, id: int, dir: bool, target: Node)
    requires
        !(target is Link),
    ensures
        unlink_outcome(keep_files, Paths { source: Node::Data { id, dir }, target }) == Err::<
            Paths,
            LinkError,
        >(LinkError::SourceNotSymlink),
{
}

/// Unlinking without keeping the files moves an orphaned target's data back
/// to the missing source; keeping the files, it changes nothing.
pub proof fn lemma_unlink_restores_orphaned_target(keep_files: bool, id: int, dir: bool)
    ensures
        ({
            let p = Paths { source: Node::Missing, target: Node::Data { id, dir } };
            &&& !keep_files ==> unlink_outcome(keep_files, p) == Ok::<Paths, LinkError>(
                Paths { source: Node::Data { id, dir }, target: Node::Missing },
            )
            &&& keep_files ==> unlink_outcome(keep_files, p) == Ok::<Paths, LinkError>(p)
        }),
{
    let p = Paths { source: Node::Missing, target: Node::Data { id, dir } };
    if !keep_files {
        if dir {
            let steps = move_back_steps(true);
            lemma_apply_three(p, steps[0], steps[1], steps[2]);
            assert(steps =~= seq![steps[0], steps[1], steps[2]]);
        } else {
            let steps = move_back_steps(false);
            lemma_apply_two(p, steps[0], steps[1]);
            assert(steps =~= seq![steps[0], steps[1]]);
        }
    } else {
        assert(apply_all(p, Seq::<FsStep>::empty()) == p);
    }
}

} // verus!
