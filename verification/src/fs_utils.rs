//! Path text handling shared by the link operations.
use vstd::prelude::*;

use crate::link_status::PathState;
use crate::platform;
use crate::text::{replace_all, replace_str};

verus! {

/// A path in the form used to compare link targets: backslashes turned into
/// slashes, then lowercased.
pub open spec fn normalized(path: Seq<char>) -> Seq<char> {
    platform::lowercase_of(replace_all(path, "\\"@, "/"@))
}

/// What removing whatever is at a path does.
#[derive(Clone, Copy, Debug, PartialEq, Eq, Structural)]
pub enum Removal {
    /// Remove the symbolic link itself, not what it points to.
    Symlink,
    /// Remove the directory with everything in it.
    Directory,
    /// Remove the file.
    File,
    /// Nothing is there: nothing to do.
    Nothing,
}

/// The removal for what was observed at a path: a symbolic link is removed
/// as a link (even a broken one), then nothing is done where nothing exists,
/// and otherwise a directory or a file is removed.
pub open spec fn removal_for(state: PathState) -> Removal {
    if state.is_symlink {
        Removal::Symlink
    } else if !state.exists {
        Removal::Nothing
    } else if state.is_dir {
        Removal::Directory
    } else {
        Removal::File
    }
}

/// Replacing within ASCII text by ASCII text gives ASCII text.
proof fn lemma_replace_keeps_ascii(s: Seq<char>, pat: Seq<char>, rep: Seq<char>)
    requires
        platform::is_ascii_text(s),
        platform::is_ascii_text(rep),
    ensures
        platform::is_ascii_text(replace_all(s, pat, rep)),
    decreases s.len(),
{
    if pat.len() == 0 || s.len() < pat.len() {
    } else if s.take(pat.len() as int) == pat {
        lemma_replace_keeps_ascii(s.skip(pat.len() as int), pat, rep);
        let r = replace_all(s.skip(pat.len() as int), pat, rep);
        assert forall|i: int| 0 <= i < (rep + r).len() implies (#[trigger] (rep + r)[i] as int)
            < 128 by {
            if i < rep.len() {
                assert((rep + r)[i] == rep[i]);
            } else {
                assert((rep + r)[i] == r[i - rep.len()]);
            }
        }
    } else {
        lemma_replace_keeps_ascii(s.skip(1), pat, rep);
        let r = replace_all(s.skip(1), pat, rep);
        assert forall|i: int| 0 <= i < (seq![s[0]] + r).len() implies (#[trigger] (seq![s[0]]
            + r)[i] as int) < 128 by {
            if i == 0 {
                assert((seq![s[0]] + r)[i] == s[0]);
            } else {
                assert((seq![s[0]] + r)[i] == r[i - 1]);
            }
        }
    }
}

/// File system helpers.
pub struct FsUtils;

impl FsUtils {
    /// How to remove whatever is at a path, given what was observed of it.
    pub fn removal(state: &PathState) -> (res: Removal)
        ensures
            res == removal_for(*state),
    {
        if state.is_symlink {
            Removal::Symlink
        } else if !state.exists {
            Removal::Nothing
        } else if state.is_dir {
            Removal::Directory
        } else {
            Removal::File
        }
    }

    /// The normalized form of a path, for comparing link targets.
    pub fn normalize_path(path: &str) -> (res: String)
        ensures
            res@ == normalized(path@),
            platform::is_ascii_text(path@) ==> res@ == platform::ascii_lowercase(
                replace_all(path@, "\\"@, "/"@),
            ),
    {
        proof {
            reveal_strlit("\\");
            reveal_strlit("/");
            if platform::is_ascii_text(path@) {
                lemma_replace_keeps_ascii(path@, "\\"@, "/"@);
            }
        }
        let slashed = replace_str(path, "\\", "/");
        platform::to_lowercase(slashed.as_str())
    }
}

} // verus!
