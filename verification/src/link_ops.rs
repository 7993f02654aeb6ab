//! Linking and unlinking, decided from what was observed of the two paths.
//!
//! Linking moves the data at a source path into the workspace (the target)
//! and puts a link at the source that points at the target. Unlinking removes
//! that link and, unless asked to keep the files where they are, moves the
//! data back. The functions here decide which file system steps to take; the
//! caller observes the paths, performs the steps in order, and stops at the
//! first step that fails.
use vstd::prelude::*;

use crate::dir_ops::{move_back_steps, DirOps};
use crate::fs_utils::{normalized, FsUtils};
use crate::link_status::{status_of, LinkStatus, LinkStatusChecker, PathState};
use crate::platform;
use crate::text::{concat_str, str_eq};

verus! {

/// The kind of link to create at the source.
#[derive(Clone, Copy, Debug, PartialEq, Eq, Structural)]
pub enum LinkType {
    /// A symbolic link.
    Symlink,
    /// A hard link.
    Hardlink,
}

/// What to do when the target already exists while the source holds data.
#[derive(Clone, Copy, Debug, PartialEq, Eq, Structural)]
pub enum OnExists {
    /// Leave both as they are and create no link.
    Skip,
    /// Copy into the target what it lacks from the source, drop the source,
    /// and link.
    Merge,
    /// Drop the source, keep the target, and link.
    Overwrite,
    /// Drop the target, move the source there, and link.
    Replace,
}

/// How linking continues after a strategy has run.
#[derive(Clone, Copy, Debug, PartialEq, Eq, Structural)]
pub enum OnExistsAction {
    /// Stop: nothing more is done.
    Skip,
    /// Move the source to the target, then link.
    ContinueWithMove,
    /// Link without moving anything.
    ContinueWithoutMove,
}

/// One file system step. "Source" and "target" are the two paths of the
/// request the step belongs to.
#[derive(Clone, Copy, Debug, PartialEq, Eq, Structural)]
pub enum FsStep {
    /// Remove whatever is at the source (file, directory or link).
    RemoveSource,
    /// Remove whatever is at the target.
    RemoveTarget,
    /// Copy into the target every file of the source that the target lacks,
    /// then remove the source; both must be directories.
    MergeSourceIntoTarget,
    /// Create the parent directories of the target.
    EnsureTargetParent,
    /// Move the source to the target (copy, then remove the source).
    MoveSourceToTarget,
    /// Create the target as an empty directory.
    CreateTargetDir,
    /// Create at the source a symbolic link to the target.
    SymlinkSourceToTarget,
    /// Create at the source a hard link to the target.
    HardlinkSourceToTarget,
    /// Create the parent directories of the source.
    EnsureSourceParent,
    /// Copy the target directory, recursively, to the source.
    CopyTargetDirToSource,
    /// Rename the target to the source.
    RenameTargetToSource,
}

/// Why linking or unlinking is refused.
#[derive(Clone, Copy, Debug, PartialEq, Eq, Structural)]
pub enum LinkError {
    /// The source is a symbolic link to somewhere other than the target (or
    /// its destination could not be read), and `force` was not given.
    LinkedElsewhere,
    /// Unlinking found data at the source rather than a symbolic link.
    SourceNotSymlink,
    /// Moving back found nothing at the path to move.
    NothingToMoveBack,
}

/// What a strategy does when the target exists: at most one step, then how
/// linking continues.
#[derive(Clone, Copy, Debug, PartialEq, Eq, Structural)]
pub struct OnExistsStrategy {
    /// The step the strategy takes first, if any.
    pub step: Option<FsStep>,
    /// How linking continues afterwards.
    pub action: OnExistsAction,
}

/// A request to link one source to its target.
pub struct LinkRequest {
    /// The original location.
    pub source: String,
    /// The location in the workspace.
    pub target: String,
    /// The kind of link to create.
    pub link_type: LinkType,
    /// What to do when the target exists.
    pub on_exists: OnExists,
    /// Replace an existing symbolic link at the source.
    pub force: bool,
}

/// What was observed of a request's paths before linking.
pub struct LinkSnapshot {
    /// The source path.
    pub source: PathState,
    /// The target path.
    pub target: PathState,
    /// Where the source points, when it is a symbolic link whose destination
    /// could be read.
    pub source_link: Option<String>,
}

/// What was observed of a link's paths before unlinking.
#[derive(Clone, Copy, Debug, PartialEq, Eq, Structural)]
pub struct UnlinkSnapshot {
    /// The source path.
    pub source: PathState,
    /// The target path.
    pub target: PathState,
}

/// What to do about a source that may be a symbolic link.
#[derive(Clone, Copy, Debug, PartialEq, Eq, Structural)]
pub enum SymlinkCheck {
    /// The source is no symbolic link: go on.
    NotALink,
    /// The link is in the way and `force` was given: remove it, then go on
    /// as if there were no source.
    RemoveLink,
    /// The source already points at the target: nothing to do.
    AlreadyLinked,
    /// The source points elsewhere: refuse.
    LinkedElsewhere,
}

// ---------------------------------------------------------------------------
// Specification

/// The link type named exactly `hardlink`, `Hardlink` or `HARDLINK` is a hard
/// link; every other name is a symbolic link.
pub open spec fn link_type_from_name(s: Seq<char>) -> LinkType {
    if s == "hardlink"@ || s == "Hardlink"@ || s == "HARDLINK"@ {
        LinkType::Hardlink
    } else {
        LinkType::Symlink
    }
}

/// The strategy named exactly by one of its spellings in lower, capitalized
/// or upper case; `Skip` for every other name.
pub open spec fn on_exists_from_name(s: Seq<char>) -> OnExists {
    if s == "merge"@ || s == "Merge"@ || s == "MERGE"@ {
        OnExists::Merge
    } else if s == "overwrite"@ || s == "Overwrite"@ || s == "OVERWRITE"@ {
        OnExists::Overwrite
    } else if s == "replace"@ || s == "Replace"@ || s == "REPLACE"@ {
        OnExists::Replace
    } else {
        OnExists::Skip
    }
}

/// Parsing a link type from the lowercase form `lower` of the name `s`.
pub open spec fn link_type_parsed(lower: Seq<char>, s: Seq<char>) -> Result<LinkType, Seq<char>> {
    if lower == "hardlink"@ {
        Ok(LinkType::Hardlink)
    } else if lower == "symlink"@ {
        Ok(LinkType::Symlink)
    } else {
        Err("Unknown link type: "@ + s)
    }
}

/// Parsing a strategy from the lowercase form `lower` of the name `s`.
pub open spec fn on_exists_parsed(lower: Seq<char>, s: Seq<char>) -> Result<OnExists, Seq<char>> {
    if lower == "skip"@ {
        Ok(OnExists::Skip)
    } else if lower == "replace"@ {
        Ok(OnExists::Replace)
    } else if lower == "merge"@ {
        Ok(OnExists::Merge)
    } else if lower == "overwrite"@ {
        Ok(OnExists::Overwrite)
    } else {
        Err("Unknown on_exists strategy: "@ + s)
    }
}

/// The documented name of each strategy in the configuration.
pub open spec fn on_exists_name(o: OnExists) -> Seq<char> {
    match o {
        OnExists::Skip => "skip"@,
        OnExists::Replace => "replace"@,
        OnExists::Merge => "merge"@,
        OnExists::Overwrite => "overwrite"@,
    }
}

/// The documented name of each link type in the configuration.
pub open spec fn link_type_name(t: LinkType) -> Seq<char> {
    match t {
        LinkType::Symlink => "symlink"@,
        LinkType::Hardlink => "hardlink"@,
    }
}

/// The spellings of the strategies differ from one another.
proof fn lemma_strategy_spellings_differ()
    ensures
        "skip"@ != "replace"@,
        "skip"@ != "merge"@,
        "skip"@ != "overwrite"@,
        "skip"@ != "Merge"@,
        "skip"@ != "MERGE"@,
        "skip"@ != "Overwrite"@,
        "skip"@ != "OVERWRITE"@,
        "skip"@ != "Replace"@,
        "skip"@ != "REPLACE"@,
        "replace"@ != "merge"@,
        "replace"@ != "overwrite"@,
        "replace"@ != "Merge"@,
        "replace"@ != "MERGE"@,
        "replace"@ != "Overwrite"@,
        "replace"@ != "OVERWRITE"@,
        "replace"@ != "Replace"@,
        "replace"@ != "REPLACE"@,
        "merge"@ != "overwrite"@,
        "merge"@ != "Merge"@,
        "merge"@ != "MERGE"@,
        "merge"@ != "Overwrite"@,
        "merge"@ != "OVERWRITE"@,
        "merge"@ != "Replace"@,
        "merge"@ != "REPLACE"@,
        "overwrite"@ != "Merge"@,
        "overwrite"@ != "MERGE"@,
        "overwrite"@ != "Overwrite"@,
        "overwrite"@ != "OVERWRITE"@,
        "overwrite"@ != "Replace"@,
        "overwrite"@ != "REPLACE"@,
        "Merge"@ != "MERGE"@,
        "Merge"@ != "Overwrite"@,
        "Merge"@ != "OVERWRITE"@,
        "Merge"@ != "Replace"@,
        "Merge"@ != "REPLACE"@,
        "MERGE"@ != "Overwrite"@,
        "MERGE"@ != "OVERWRITE"@,
        "MERGE"@ != "Replace"@,
        "MERGE"@ != "REPLACE"@,
        "Overwrite"@ != "OVERWRITE"@,
        "Overwrite"@ != "Replace"@,
        "Overwrite"@ != "REPLACE"@,
        "OVERWRITE"@ != "Replace"@,
        "OVERWRITE"@ != "REPLACE"@,
        "Replace"@ != "REPLACE"@,
{
    reveal_strlit("skip");
    reveal_strlit("replace");
    reveal_strlit("merge");
    reveal_strlit("overwrite");
    reveal_strlit("Merge");
    reveal_strlit("MERGE");
    reveal_strlit("Overwrite");
    reveal_strlit("OVERWRITE");
    reveal_strlit("Replace");
    reveal_strlit("REPLACE");
    assert("skip"@.len() != "replace"@.len());
    assert("skip"@.len() != "merge"@.len());
    assert("skip"@.len() != "overwrite"@.len());
    assert("skip"@.len() != "Merge"@.len());
    assert("skip"@.len() != "MERGE"@.len());
    assert("skip"@.len() != "Overwrite"@.len());
    assert("skip"@.len() != "OVERWRITE"@.len());
    assert("skip"@.len() != "Replace"@.len());
    assert("skip"@.len() != "REPLACE"@.len());
    assert("replace"@.len() != "merge"@.len());
    assert("replace"@.len() != "overwrite"@.len());
    assert("replace"@.len() != "Merge"@.len());
    assert("replace"@.len() != "MERGE"@.len());
    assert("replace"@.len() != "Overwrite"@.len());
    assert("replace"@.len() != "OVERWRITE"@.len());
    assert("replace"@[0] != "Replace"@[0]);
    assert("replace"@[0] != "REPLACE"@[0]);
    assert("merge"@.len() != "overwrite"@.len());
    assert("merge"@[0] != "Merge"@[0]);
    assert("merge"@[0] != "MERGE"@[0]);
    assert("merge"@.len() != "Overwrite"@.len());
    assert("merge"@.len() != "OVERWRITE"@.len());
    assert("merge"@.len() != "Replace"@.len());
    assert("merge"@.len() != "REPLACE"@.len());
    assert("overwrite"@.len() != "Merge"@.len());
    assert("overwrite"@.len() != "MERGE"@.len());
    assert("overwrite"@[0] != "Overwrite"@[0]);
    assert("overwrite"@[0] != "OVERWRITE"@[0]);
    assert("overwrite"@.len() != "Replace"@.len());
    assert("overwrite"@.len() != "REPLACE"@.len());
    assert("Merge"@[1] != "MERGE"@[1]);
    assert("Merge"@.len() != "Overwrite"@.len());
    assert("Merge"@.len() != "OVERWRITE"@.len());
    assert("Merge"@.len() != "Replace"@.len());
    assert("Merge"@.len() != "REPLACE"@.len());
    assert("MERGE"@.len() != "Overwrite"@.len());
    assert("MERGE"@.len() != "OVERWRITE"@.len());
    assert("MERGE"@.len() != "Replace"@.len());
    assert("MERGE"@.len() != "REPLACE"@.len());
    assert("Overwrite"@[1] != "OVERWRITE"@[1]);
    assert("Overwrite"@.len() != "Replace"@.len());
    assert("Overwrite"@.len() != "REPLACE"@.len());
    assert("OVERWRITE"@.len() != "Replace"@.len());
    assert("OVERWRITE"@.len() != "REPLACE"@.len());
    assert("Replace"@[1] != "REPLACE"@[1]);
}

/// The spellings of the link types differ from one another.
proof fn lemma_link_type_spellings_differ()
    ensures
        "symlink"@ != "hardlink"@,
        "symlink"@ != "Hardlink"@,
        "symlink"@ != "HARDLINK"@,
        "hardlink"@ != "Hardlink"@,
        "hardlink"@ != "HARDLINK"@,
        "Hardlink"@ != "HARDLINK"@,
{
    reveal_strlit("symlink");
    reveal_strlit("hardlink");
    reveal_strlit("Hardlink");
    reveal_strlit("HARDLINK");
    assert("symlink"@.len() != "hardlink"@.len());
    assert("symlink"@.len() != "Hardlink"@.len());
    assert("symlink"@.len() != "HARDLINK"@.len());
    assert("hardlink"@[0] != "Hardlink"@[0]);
    assert("hardlink"@[0] != "HARDLINK"@[0]);
    assert("Hardlink"@[1] != "HARDLINK"@[1]);
}

/// Each strategy's own name parses to it, and only its own name does: the
/// parse of a lowercase name gives a strategy exactly when the name is that
/// strategy's. The exact-spelling conversion agrees on the names.
pub proof fn lemma_on_exists_names_round_trip(o: OnExists, lower: Seq<char>, s: Seq<char>)
    ensures
        on_exists_parsed(on_exists_name(o), s) == Ok::<OnExists, Seq<char>>(o),
        on_exists_parsed(lower, s) == Ok::<OnExists, Seq<char>>(o) ==> lower == on_exists_name(o),
        on_exists_parsed(lower, s) is Err <==> (forall|p: OnExists| lower != #[trigger] on_exists_name(p)),
        on_exists_from_name(on_exists_name(o)) == o,
{
    lemma_strategy_spellings_differ();
    if on_exists_parsed(lower, s) is Err {
        assert forall|p: OnExists| lower != #[trigger] on_exists_name(p) by {
            match p {
                OnExists::Skip => {},
                OnExists::Replace => {},
                OnExists::Merge => {},
                OnExists::Overwrite => {},
            }
        }
    } else {
        if lower == "skip"@ {
            assert(lower == on_exists_name(OnExists::Skip));
        } else if lower == "replace"@ {
            assert(lower == on_exists_name(OnExists::Replace));
        } else if lower == "merge"@ {
            assert(lower == on_exists_name(OnExists::Merge));
        } else {
            assert(lower == on_exists_name(OnExists::Overwrite));
        }
    }
}

/// Each link type's own name parses to it, and only its own name does. The
/// exact-spelling conversion agrees on the names.
pub proof fn lemma_link_type_names_round_trip(t: LinkType, lower: Seq<char>, s: Seq<char>)
    ensures
        link_type_parsed(link_type_name(t), s) == Ok::<LinkType, Seq<char>>(t),
        link_type_parsed(lower, s) == Ok::<LinkType, Seq<char>>(t) ==> lower == link_type_name(t),
        link_type_parsed(lower, s) is Err <==> (forall|p: LinkType| lower != #[trigger] link_type_name(p)),
        link_type_from_name(link_type_name(t)) == t,
{
    lemma_link_type_spellings_differ();
    if link_type_parsed(lower, s) is Err {
        assert forall|p: LinkType| lower != #[trigger] link_type_name(p) by {
            match p {
                LinkType::Symlink => {},
                LinkType::Hardlink => {},
            }
        }
    } else if lower == "hardlink"@ {
        assert(lower == link_type_name(LinkType::Hardlink));
    } else {
        assert(lower == link_type_name(LinkType::Symlink));
    }
}

/// A parse result with its error text taken as a sequence.
pub open spec fn result_view<T>(r: Result<T, String>) -> Result<T, Seq<char>> {
    match r {
        Ok(v) => Ok(v),
        Err(e) => Err(e@),
    }
}

/// What each strategy does.
pub open spec fn strategy_of(on_exists: OnExists) -> OnExistsStrategy {
    match on_exists {
        OnExists::Skip => OnExistsStrategy { step: None, action: OnExistsAction::Skip },
        OnExists::Replace => OnExistsStrategy {
            step: Some(FsStep::RemoveTarget),
            action: OnExistsAction::ContinueWithMove,
        },
        OnExists::Merge => OnExistsStrategy {
            step: Some(FsStep::MergeSourceIntoTarget),
            action: OnExistsAction::ContinueWithoutMove,
        },
        OnExists::Overwrite => OnExistsStrategy {
            step: Some(FsStep::RemoveSource),
            action: OnExistsAction::ContinueWithoutMove,
        },
    }
}

/// The step that creates the link.
pub open spec fn link_step(link_type: LinkType) -> FsStep {
    match link_type {
        LinkType::Symlink => FsStep::SymlinkSourceToTarget,
        LinkType::Hardlink => FsStep::HardlinkSourceToTarget,
    }
}

/// The decision about a source that may be a symbolic link.
pub open spec fn symlink_check(
    source_is_symlink: bool,
    force: bool,
    source_link: Option<String>,
    target: Seq<char>,
) -> SymlinkCheck {
    if !source_is_symlink {
        SymlinkCheck::NotALink
    } else if force {
        SymlinkCheck::RemoveLink
    } else {
        match source_link {
            Some(l) => if normalized(l@) == normalized(target) {
                SymlinkCheck::AlreadyLinked
            } else {
                SymlinkCheck::LinkedElsewhere
            },
            None => SymlinkCheck::LinkedElsewhere,
        }
    }
}

/// The steps that make room for a link when the source holds nothing.
pub open spec fn prepare_steps(target_exists: bool) -> Seq<FsStep> {
    if target_exists {
        seq![FsStep::EnsureTargetParent]
    } else {
        seq![FsStep::EnsureTargetParent, FsStep::CreateTargetDir]
    }
}

/// The steps that link a source holding data.
pub open spec fn data_steps(req: LinkRequest, target_exists: bool) -> Seq<FsStep> {
    let link = link_step(req.link_type);
    if !target_exists {
        seq![FsStep::EnsureTargetParent, FsStep::MoveSourceToTarget, link]
    } else {
        let st = strategy_of(req.on_exists);
        let first = match st.step {
            Some(s) => seq![s],
            None => Seq::empty(),
        };
        match st.action {
            OnExistsAction::Skip => first,
            OnExistsAction::ContinueWithMove => first + seq![
                FsStep::EnsureTargetParent,
                FsStep::MoveSourceToTarget,
                link,
            ],
            OnExistsAction::ContinueWithoutMove => first + seq![link],
        }
    }
}

/// The steps that link a request, or why it is refused.
pub open spec fn link_plan(req: LinkRequest, snap: LinkSnapshot) -> Result<Seq<FsStep>, LinkError> {
    let link = link_step(req.link_type);
    match symlink_check(snap.source.is_symlink, req.force, snap.source_link, req.target@) {
        SymlinkCheck::AlreadyLinked => Ok(Seq::empty()),
        SymlinkCheck::LinkedElsewhere => Err(LinkError::LinkedElsewhere),
        SymlinkCheck::RemoveLink => Ok(
            seq![FsStep::RemoveSource] + prepare_steps(snap.target.exists) + seq![link],
        ),
        SymlinkCheck::NotALink => if snap.source.exists {
            Ok(data_steps(req, snap.target.exists))
        } else {
            Ok(prepare_steps(snap.target.exists) + seq![link])
        },
    }
}

/// The steps that unlink, or why it is refused.
pub open spec fn unlink_plan(keep_files: bool, snap: UnlinkSnapshot) -> Result<
    Seq<FsStep>,
    LinkError,
> {
    if snap.source.is_symlink {
        if !keep_files && snap.target.exists {
            Ok(seq![FsStep::RemoveSource] + move_back_steps(snap.target.is_dir))
        } else {
            Ok(seq![FsStep::RemoveSource])
        }
    } else if snap.source.exists {
        Err(LinkError::SourceNotSymlink)
    } else if snap.target.exists && !keep_files {
        Ok(move_back_steps(snap.target.is_dir))
    } else {
        Ok(Seq::empty())
    }
}

/// A plan taken as a sequence.
pub open spec fn plan_view(r: Result<Vec<FsStep>, LinkError>) -> Result<Seq<FsStep>, LinkError> {
    match r {
        Ok(v) => Ok(v@),
        Err(e) => Err(e),
    }
}

// ---------------------------------------------------------------------------
// Parsing

fn unknown(prefix: &str, s: &str) -> (res: String)
    ensures
        res@ == prefix@ + s@,
{
    concat_str(prefix, s)
}

impl LinkType {
    /// Parses a link type from an exact spelling: `hardlink`, `Hardlink` or
    /// `HARDLINK` is a hard link, anything else a symbolic link.
    pub fn from_str(s: &str) -> (res: LinkType)
        ensures
            res == link_type_from_name(s@),
    {
        if str_eq(s, "hardlink") || str_eq(s, "Hardlink") || str_eq(s, "HARDLINK") {
            LinkType::Hardlink
        } else {
            LinkType::Symlink
        }
    }

    /// Parses a link type from the lowercase form `lower` of the name `s`.
    pub fn parse_lowercase(lower: &str, s: &str) -> (res: Result<LinkType, String>)
        ensures
            result_view(res) == link_type_parsed(lower@, s@),
    {
        if str_eq(lower, "hardlink") {
            Ok(LinkType::Hardlink)
        } else if str_eq(lower, "symlink") {
            Ok(LinkType::Symlink)
        } else {
            Err(unknown("Unknown link type: ", s))
        }
    }

    /// Parses a link type in any letter case: `hardlink` or `symlink`.
    pub fn parse(s: &str) -> (res: Result<LinkType, String>)
        ensures
            result_view(res) == link_type_parsed(platform::lowercase_of(s@), s@),
            platform::is_ascii_text(s@) ==> result_view(res) == link_type_parsed(
                platform::ascii_lowercase(s@),
                s@,
            ),
    {
        let lower = platform::to_lowercase(s);
        Self::parse_lowercase(lower.as_str(), s)
    }

    /// Parses a link type in any letter case, falling back to a symbolic link.
    pub fn from_str_lossy(s: &str) -> (res: LinkType)
        ensures
            res == match link_type_parsed(platform::lowercase_of(s@), s@) {
                Ok(t) => t,
                Err(_) => LinkType::Symlink,
            },
    {
        match Self::parse(s) {
            Ok(t) => t,
            Err(_) => LinkType::Symlink,
        }
    }
}

impl OnExists {
    /// Parses a strategy from an exact spelling in lower, capitalized or
    /// upper case; anything else is `Skip`.
    pub fn from_str(s: &str) -> (res: OnExists)
        ensures
            res == on_exists_from_name(s@),
    {
        if str_eq(s, "merge") || str_eq(s, "Merge") || str_eq(s, "MERGE") {
            OnExists::Merge
        } else if str_eq(s, "overwrite") || str_eq(s, "Overwrite") || str_eq(s, "OVERWRITE") {
            OnExists::Overwrite
        } else if str_eq(s, "replace") || str_eq(s, "Replace") || str_eq(s, "REPLACE") {
            OnExists::Replace
        } else {
            OnExists::Skip
        }
    }

    /// Parses a strategy from the lowercase form `lower` of the name `s`.
    pub fn parse_lowercase(lower: &str, s: &str) -> (res: Result<OnExists, String>)
        ensures
            result_view(res) == on_exists_parsed(lower@, s@),
    {
        if str_eq(lower, "skip") {
            Ok(OnExists::Skip)
        } else if str_eq(lower, "replace") {
            Ok(OnExists::Replace)
        } else if str_eq(lower, "merge") {
            Ok(OnExists::Merge)
        } else if str_eq(lower, "overwrite") {
            Ok(OnExists::Overwrite)
        } else {
            Err(unknown("Unknown on_exists strategy: ", s))
        }
    }

    /// Parses a strategy in any letter case.
    pub fn parse(s: &str) -> (res: Result<OnExists, String>)
        ensures
            result_view(res) == on_exists_parsed(platform::lowercase_of(s@), s@),
            platform::is_ascii_text(s@) ==> result_view(res) == on_exists_parsed(
                platform::ascii_lowercase(s@),
                s@,
            ),
    {
        let lower = platform::to_lowercase(s);
        Self::parse_lowercase(lower.as_str(), s)
    }

    /// Parses a strategy in any letter case, falling back to `Skip`.
    pub fn from_str_lossy(s: &str) -> (res: OnExists)
        ensures
            res == match on_exists_parsed(platform::lowercase_of(s@), s@) {
                Ok(t) => t,
                Err(_) => OnExists::Skip,
            },
    {
        match Self::parse(s) {
            Ok(t) => t,
            Err(_) => OnExists::Skip,
        }
    }

    /// What this strategy does when the target exists.
    pub fn strategy(&self) -> (res: OnExistsStrategy)
        ensures
            res == strategy_of(*self),
    {
        match self {
            OnExists::Skip => skip_strategy_factory(),
            OnExists::Replace => replace_strategy_factory(),
            OnExists::Merge => merge_strategy_factory(),
            OnExists::Overwrite => overwrite_strategy_factory(),
        }
    }
}

/// Skip: touch nothing and stop.
fn skip_strategy_factory() -> (res: OnExistsStrategy)
    ensures
        res == strategy_of(OnExists::Skip),
{
    OnExistsStrategy { step: None, action: OnExistsAction::Skip }
}

/// Replace: remove the target, then move the source there.
fn replace_strategy_factory() -> (res: OnExistsStrategy)
    ensures
        res == strategy_of(OnExists::Replace),
{
    OnExistsStrategy { step: Some(FsStep::RemoveTarget), action: OnExistsAction::ContinueWithMove }
}

/// Merge: merge the source into the target, then link without moving.
fn merge_strategy_factory() -> (res: OnExistsStrategy)
    ensures
        res == strategy_of(OnExists::Merge),
{
    OnExistsStrategy {
        step: Some(FsStep::MergeSourceIntoTarget),
        action: OnExistsAction::ContinueWithoutMove,
    }
}

/// Overwrite: remove the source, keep the target, then link without moving.
fn overwrite_strategy_factory() -> (res: OnExistsStrategy)
    ensures
        res == strategy_of(OnExists::Overwrite),
{
    OnExistsStrategy {
        step: Some(FsStep::RemoveSource),
        action: OnExistsAction::ContinueWithoutMove,
    }
}

/// Parsing through `LinkType::parse`, whose contract states the result. An
/// `ensures` here is not possible: Verus ties the result named in it to
/// `Self::from_str`, which resolves to the inherent exact-spelling `from_str`.
impl std::str::FromStr for LinkType {
    type Err = String;

    fn from_str(s: &str) -> Result<LinkType, String> {
        LinkType::parse(s)
    }
}

/// Parsing through `OnExists::parse`, whose contract states the result. An
/// `ensures` here is not possible: Verus ties the result named in it to
/// `Self::from_str`, which resolves to the inherent exact-spelling `from_str`.
impl std::str::FromStr for OnExists {
    type Err = String;

    fn from_str(s: &str) -> Result<OnExists, String> {
        OnExists::parse(s)
    }
}

// ---------------------------------------------------------------------------
// Planning

/// Link operations.
pub struct LinkOps;

impl LinkOps {
    /// Decides what to do about a source that may be a symbolic link: with
    /// `force` the link is removed; otherwise a link that already points at
    /// the target (compared in normalized form) needs nothing, and any other
    /// link is refused.
    pub fn check_and_handle_symlink(
        source_is_symlink: bool,
        force: bool,
        source_link: &Option<String>,
        target: &str,
    ) -> (res: SymlinkCheck)
        ensures
            res == symlink_check(source_is_symlink, force, *source_link, target@),
    {
        if !source_is_symlink {
            return SymlinkCheck::NotALink;
        }
        if force {
            return SymlinkCheck::RemoveLink;
        }
        match source_link {
            Some(l) => {
                let linked = FsUtils::normalize_path(l.as_str());
                let wanted = FsUtils::normalize_path(target);
                if str_eq(linked.as_str(), wanted.as_str()) {
                    SymlinkCheck::AlreadyLinked
                } else {
                    SymlinkCheck::LinkedElsewhere
                }
            },
            None => SymlinkCheck::LinkedElsewhere,
        }
    }

    /// Applies the strategy for an existing target, appending its step to
    /// `steps`; with no target there is nothing to resolve and the source is
    /// moved.
    pub fn handle_on_exists(
        on_exists: OnExists,
        target_exists: bool,
        steps: &mut Vec<FsStep>,
    ) -> (res: OnExistsAction)
        ensures
            !target_exists ==> res == OnExistsAction::ContinueWithMove && final(steps)@ == old(
                steps,
            )@,
            target_exists ==> res == strategy_of(on_exists).action && final(steps)@ == old(
                steps,
            )@ + match strategy_of(on_exists).step {
                Some(s) => seq![s],
                None => Seq::empty(),
            },
    {
        if !target_exists {
            assert(steps@ + Seq::<FsStep>::empty() =~= steps@);
            return OnExistsAction::ContinueWithMove;
        }
        let strategy = on_exists.strategy();
        match strategy.step {
            Some(s) => steps.push(s),
            None => {
                assert(steps@ + Seq::<FsStep>::empty() =~= steps@);
            },
        }
        strategy.action
    }

    /// The steps that make room for a link when the source holds nothing:
    /// the target's parents, and the target itself as a directory when it is
    /// missing.
    pub fn prepare_target_for_link(target_exists: bool, steps: &mut Vec<FsStep>)
        ensures
            final(steps)@ == old(steps)@ + prepare_steps(target_exists),
    {
        steps.push(FsStep::EnsureTargetParent);
        if !target_exists {
            steps.push(FsStep::CreateTargetDir);
        }
    }

    /// The step that creates a link of the given type.
    pub fn create_link(link_type: LinkType) -> (res: FsStep)
        ensures
            res == link_step(link_type),
    {
        match link_type {
            LinkType::Symlink => FsStep::SymlinkSourceToTarget,
            LinkType::Hardlink => FsStep::HardlinkSourceToTarget,
        }
    }

    /// The steps that link `request`, given what was observed of its paths,
    /// or why the request is refused. An empty plan means there is nothing to
    /// do: the link is already in place, or the strategy is `Skip`.
    pub fn link_with_fs(request: &LinkRequest, snapshot: &LinkSnapshot) -> (res: Result<
        Vec<FsStep>,
        LinkError,
    >)
        ensures
            plan_view(res) == link_plan(*request, *snapshot),
    {
        let link = Self::create_link(request.link_type);
        let mut steps: Vec<FsStep> = Vec::new();
        let check = Self::check_and_handle_symlink(
            snapshot.source.is_symlink,
            request.force,
            &snapshot.source_link,
            request.target.as_str(),
        );
        match check {
            SymlinkCheck::AlreadyLinked => {
                return Ok(steps);
            },
            SymlinkCheck::LinkedElsewhere => {
                return Err(LinkError::LinkedElsewhere);
            },
            SymlinkCheck::RemoveLink => {
                steps.push(FsStep::RemoveSource);
                Self::prepare_target_for_link(snapshot.target.exists, &mut steps);
                steps.push(link);
                assert(steps@ =~= seq![FsStep::RemoveSource] + prepare_steps(snapshot.target.exists)
                    + seq![link]);
                return Ok(steps);
            },
            SymlinkCheck::NotALink => {},
        }
        if snapshot.source.exists {
            let action = Self::handle_on_exists(request.on_exists, snapshot.target.exists, &mut steps);
            match action {
                OnExistsAction::Skip => {},
                OnExistsAction::ContinueWithMove => {
                    steps.push(FsStep::EnsureTargetParent);
                    steps.push(FsStep::MoveSourceToTarget);
                    steps.push(link);
                },
                OnExistsAction::ContinueWithoutMove => {
                    steps.push(link);
                },
            }
            assert(steps@ =~= data_steps(*request, snapshot.target.exists));
        } else {
            Self::prepare_target_for_link(snapshot.target.exists, &mut steps);
            steps.push(link);
            assert(steps@ =~= prepare_steps(snapshot.target.exists) + seq![link]);
        }
        Ok(steps)
    }

    /// The same plan as `link_with_fs`.
    pub fn link(request: &LinkRequest, snapshot: &LinkSnapshot) -> (res: Result<
        Vec<FsStep>,
        LinkError,
    >)
        ensures
            plan_view(res) == link_plan(*request, *snapshot),
    {
        Self::link_with_fs(request, snapshot)
    }

    /// The steps that unlink, given what was observed of the two paths: the
    /// link at the source is removed, and unless `keep_files` the data at the
    /// target is moved back. Data at the source that is no link is refused.
    pub fn unlink_with_fs(keep_files: bool, snapshot: &UnlinkSnapshot) -> (res: Result<
        Vec<FsStep>,
        LinkError,
    >)
        ensures
            plan_view(res) == unlink_plan(keep_files, *snapshot),
    {
        let mut steps: Vec<FsStep> = Vec::new();
        if snapshot.source.is_symlink {
            steps.push(FsStep::RemoveSource);
            if !keep_files && snapshot.target.exists {
                let back = Self::move_back(&snapshot.target);
                match back {
                    Ok(mut b) => {
                        steps.append(&mut b);
                    },
                    Err(e) => {
                        return Err(e);
                    },
                }
            }
        } else if snapshot.source.exists {
            return Err(LinkError::SourceNotSymlink);
        } else if snapshot.target.exists && !keep_files {
            return Self::move_back(&snapshot.target);
        }
        Ok(steps)
    }

    /// The same plan as `unlink_with_fs`.
    pub fn unlink(keep_files: bool, snapshot: &UnlinkSnapshot) -> (res: Result<
        Vec<FsStep>,
        LinkError,
    >)
        ensures
            plan_view(res) == unlink_plan(keep_files, *snapshot),
    {
        Self::unlink_with_fs(keep_files, snapshot)
    }

    /// The steps that move the data at the target back to the source.
    pub fn move_back(target: &PathState) -> (res: Result<Vec<FsStep>, LinkError>)
        ensures
            plan_view(res) == (if target.exists {
                Ok(move_back_steps(target.is_dir))
            } else {
                Err(LinkError::NothingToMoveBack)
            }),
    {
        DirOps::move_back(target)
    }

    /// The status of a link, from what was observed of its paths.
    pub fn check_status(source: &PathState, target: &PathState) -> (res: LinkStatus)
        ensures
            res == status_of(*source, *target),
    {
        LinkStatusChecker::check(source, target)
    }
}

} // verus!
