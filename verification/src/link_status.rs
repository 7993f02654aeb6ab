//! The state of a configured link, classified from what was observed of its
//! two paths.
use vstd::prelude::*;

verus! {

/// What was observed of one path.
#[derive(Clone, Copy, Debug, PartialEq, Eq, Structural)]
pub struct PathState {
    /// Something is at the path, symbolic links followed (`Path::exists`).
    pub exists: bool,
    /// The path itself is a symbolic link (`Path::is_symlink`).
    pub is_symlink: bool,
    /// A directory is at the path, symbolic links followed (`Path::is_dir`).
    pub is_dir: bool,
}

/// The state of a link between a source and its target.
#[derive(Clone, Copy, Debug, PartialEq, Eq, Structural)]
pub enum LinkStatus {
    /// The source is a symbolic link and the target exists.
    Linked,
    /// The source is a symbolic link but the target is gone.
    Broken,
    /// Both exist and the source is no link.
    BothExist,
    /// Only the source exists.
    SourceOnly,
    /// Only the target exists.
    TargetOnly,
    /// Neither exists.
    Neither,
}

/// The classification of a source and a target.
pub open spec fn status_of(source: PathState, target: PathState) -> LinkStatus {
    if source.is_symlink {
        if target.exists {
            LinkStatus::Linked
        } else {
            LinkStatus::Broken
        }
    } else if source.exists {
        if target.exists {
            LinkStatus::BothExist
        } else {
            LinkStatus::SourceOnly
        }
    } else if target.exists {
        LinkStatus::TargetOnly
    } else {
        LinkStatus::Neither
    }
}

/// The name of a status.
pub open spec fn status_name(s: LinkStatus) -> Seq<char> {
    match s {
        LinkStatus::Linked => "linked"@,
        LinkStatus::Broken => "broken"@,
        LinkStatus::BothExist => "both_exist"@,
        LinkStatus::SourceOnly => "source_only"@,
        LinkStatus::TargetOnly => "target_only"@,
        LinkStatus::Neither => "none"@,
    }
}

impl LinkStatus {
    /// The name of the status, as shown to the user.
    pub fn as_str(&self) -> (res: &'static str)
        ensures
            res@ == status_name(*self),
    {
        match self {
            LinkStatus::Linked => "linked",
            LinkStatus::Broken => "broken",
            LinkStatus::BothExist => "both_exist",
            LinkStatus::SourceOnly => "source_only",
            LinkStatus::TargetOnly => "target_only",
            LinkStatus::Neither => "none",
        }
    }

    /// Whether the link is in place.
    pub fn is_valid(&self) -> (res: bool)
        ensures
            res == (*self == LinkStatus::Linked),
    {
        match self {
            LinkStatus::Linked => true,
            _ => false,
        }
    }

    /// Whether the link points at a missing target.
    pub fn is_broken(&self) -> (res: bool)
        ensures
            res == (*self == LinkStatus::Broken),
    {
        match self {
            LinkStatus::Broken => true,
            _ => false,
        }
    }
}

/// Classifies links.
pub struct LinkStatusChecker;

impl LinkStatusChecker {
    /// The status of the link from `source` to `target`, from what was
    /// observed of both paths.
    pub fn check(source: &PathState, target: &PathState) -> (res: LinkStatus)
        ensures
            res == status_of(*source, *target),
    {
        if source.is_symlink {
            if target.exists {
                LinkStatus::Linked
            } else {
                LinkStatus::Broken
            }
        } else if source.exists {
            if target.exists {
                LinkStatus::BothExist
            } else {
                LinkStatus::SourceOnly
            }
        } else if target.exists {
            LinkStatus::TargetOnly
        } else {
            LinkStatus::Neither
        }
    }
}

/// Distinct statuses have distinct names, so a name identifies its status.
pub proof fn lemma_status_names_distinct(a: LinkStatus, b: LinkStatus)
    ensures
        status_name(a) == status_name(b) ==> a == b,
{
    reveal_strlit("linked");
    reveal_strlit("broken");
    reveal_strlit("both_exist");
    reveal_strlit("source_only");
    reveal_strlit("target_only");
    reveal_strlit("none");
    let x = status_name(a);
    let y = status_name(b);
    if a != b && x.len() == y.len() {
        assert(x[0] != y[0]);
    }
}

/// A link is reported in place exactly when the source is a symbolic link
/// and the target exists; it is reported broken exactly when the source is a
/// symbolic link and the target is gone.
pub proof fn lemma_linked_iff(source: PathState, target: PathState)
    ensures
        status_of(source, target) == LinkStatus::Linked <==> (source.is_symlink && target.exists),
        status_of(source, target) == LinkStatus::Broken <==> (source.is_symlink && !target.exists),
{
}

} // verus!
