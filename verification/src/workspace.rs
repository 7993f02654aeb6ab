//! The workspace: where the configuration file lives, where targets lie, and
//! the configuration written when a workspace is set up.
use vstd::prelude::*;

use crate::platform;
use crate::text::{concat_str, replace_all, replace_str};

verus! {

/// The configuration written into a new workspace; `{}` stands for the
/// workspace path.
pub const DEFAULT_CONFIG_TEMPLATE: &'static str = "# link-disk configuration\n\n[workspace]\npath = \"{}\"\n\n[apps.vscode]\nname = \"VSCode\"\non_exists = \"skip\"\n\n[[apps.vscode.sources]]\nsource = \"<home>/AppData/Roaming/Code\"\ntarget = \"vscode/Roaming\"\nlink_type = \"symlink\"\n";

/// A relative path inside the workspace, with `/` turned into `\`, joined to
/// the workspace path.
pub open spec fn resolved_target(workspace: Seq<char>, relative: Seq<char>) -> Seq<char> {
    platform::joined_path(workspace, replace_all(relative, "/"@, "\\"@))
}

/// Where the target of an application's source lies:
/// `<workspace>/<app name>/<target>`.
pub open spec fn target_path(workspace: Seq<char>, app_name: Seq<char>, target: Seq<char>) -> Seq<
    char,
> {
    resolved_target(workspace, app_name + "/"@ + target)
}

/// A path separator, on either platform.
pub open spec fn is_separator(c: char) -> bool {
    c == '/' || c == '\\'
}

/// A `..` segment starts at position `i` of `relative`.
pub open spec fn parent_segment_at(relative: Seq<char>, i: int) -> bool {
    &&& 0 <= i && i + 2 <= relative.len()
    &&& relative[i] == '.' && relative[i + 1] == '.'
    &&& i == 0 || is_separator(relative[i - 1])
    &&& i + 2 == relative.len() || is_separator(relative[i + 2])
}

/// An ASCII letter.
pub open spec fn is_ascii_letter(c: char) -> bool {
    ('a' <= c && c <= 'z') || ('A' <= c && c <= 'Z')
}

/// The path starts with a drive prefix, a letter and `:`.
pub open spec fn has_drive_prefix(relative: Seq<char>) -> bool {
    relative.len() >= 2 && is_ascii_letter(relative[0]) && relative[1] == ':'
}

/// A relative path stays inside the directory it is joined to: it starts
/// with no separator (no root), with no drive prefix, and has no `..`
/// segment.
pub open spec fn stays_inside(relative: Seq<char>) -> bool {
    &&& !(relative.len() > 0 && is_separator(relative[0]))
    &&& !has_drive_prefix(relative)
    &&& forall|i: int| !#[trigger] parent_segment_at(relative, i)
}

/// The path below the workspace that a target of an application lies at.
pub open spec fn app_relative(app_name: Seq<char>, target: Seq<char>) -> Seq<char> {
    app_name + "/"@ + target
}

/// Whether a relative path stays inside the directory it is joined to.
pub fn stays_inside_exec(relative: &str) -> (res: bool)
    ensures
        res == stays_inside(relative@),
{
    let n = relative.unicode_len();
    if n > 0 {
        let c = relative.get_char(0);
        if c == '/' || c == '\\' {
            return false;
        }
        if n >= 2 && relative.get_char(1) == ':' && (('a' <= c && c <= 'z') || ('A' <= c && c
            <= 'Z')) {
            return false;
        }
    }
    let mut i: usize = 0;
    while i < n
        invariant
            n == relative@.len(),
            i <= n,
            !(relative@.len() > 0 && is_separator(relative@[0])),
            !has_drive_prefix(relative@),
            forall|k: int| 0 <= k < i ==> !parent_segment_at(relative@, k),
        decreases n - i,
    {
        let c = relative.get_char(i);
        if c == '.' && i + 1 < n && relative.get_char(i + 1) == '.' {
            let before_ok = i == 0 || {
                let b = relative.get_char(i - 1);
                b == '/' || b == '\\'
            };
            let after_ok = i + 2 == n || {
                let a = relative.get_char(i + 2);
                a == '/' || a == '\\'
            };
            if before_ok && after_ok {
                assert(parent_segment_at(relative@, i as int));
                return false;
            }
        }
        assert(!parent_segment_at(relative@, i as int));
        i = i + 1;
    }
    assert forall|k: int| !#[trigger] parent_segment_at(relative@, k) by {
        if 0 <= k < n {
        }
    }
    true
}

/// The configuration directory below the home directory `home`.
pub open spec fn config_dir_of(home: Seq<char>) -> Seq<char> {
    platform::joined_path(home, ".link-disk"@)
}

/// The configuration file below the home directory `home`.
pub open spec fn config_path_of(home: Seq<char>) -> Seq<char> {
    platform::joined_path(config_dir_of(home), "config.toml"@)
}

/// A configuration template filled in with a workspace path, whose
/// backslashes are turned into slashes.
pub open spec fn filled_template(template: Seq<char>, workspace_path: Seq<char>) -> Seq<char> {
    replace_all(template, "{}"@, replace_all(workspace_path, "\\"@, "/"@))
}

/// Why a workspace location cannot be found.
#[derive(Clone, Copy, Debug, PartialEq, Eq, Structural)]
pub enum WorkspaceError {
    /// The home directory is unknown.
    NoHomeDirectory,
    /// A target path would leave the workspace.
    OutsideWorkspace,
}

/// Workspace locations.
pub struct Workspace;

impl Workspace {
    /// The configuration directory, `.link-disk` below the given home
    /// directory.
    pub fn config_dir_in(home: &Option<String>) -> (res: Result<String, WorkspaceError>)
        ensures
            match home {
                Some(h) => res matches Ok(d) && d@ == config_dir_of(h@),
                None => res == Err::<String, WorkspaceError>(WorkspaceError::NoHomeDirectory),
            },
    {
        match home {
            Some(h) => Ok(platform::path_join(h.as_str(), ".link-disk")),
            None => Err(WorkspaceError::NoHomeDirectory),
        }
    }

    /// The configuration directory of this machine's user.
    pub fn config_dir() -> (res: Result<String, WorkspaceError>)
        ensures
            res matches Ok(d) ==> exists|h: Seq<char>| d@ == #[trigger] config_dir_of(h),
            res is Err ==> res == Err::<String, WorkspaceError>(WorkspaceError::NoHomeDirectory),
    {
        let home = platform::home_dir();
        Self::config_dir_in(&home)
    }

    /// The configuration file, `config.toml` in the configuration directory
    /// below the given home directory.
    pub fn config_path_in(home: &Option<String>) -> (res: Result<String, WorkspaceError>)
        ensures
            match home {
                Some(h) => res matches Ok(p) && p@ == config_path_of(h@),
                None => res == Err::<String, WorkspaceError>(WorkspaceError::NoHomeDirectory),
            },
    {
        match Self::config_dir_in(home) {
            Ok(d) => Ok(platform::path_join(d.as_str(), "config.toml")),
            Err(e) => Err(e),
        }
    }

    /// The configuration file of this machine's user.
    pub fn config_path() -> (res: Result<String, WorkspaceError>)
        ensures
            res matches Ok(p) ==> exists|h: Seq<char>| p@ == #[trigger] config_path_of(h),
            res is Err ==> res == Err::<String, WorkspaceError>(WorkspaceError::NoHomeDirectory),
    {
        let home = platform::home_dir();
        Self::config_path_in(&home)
    }

    /// A path inside the workspace: `relative`, with `/` turned into `\`,
    /// joined to the workspace path. A relative path that would leave the
    /// workspace (rooted, with a drive prefix such as `C:`, or with a `..`
    /// segment) is refused.
    pub fn resolve_target(workspace: &str, relative: &str) -> (res: Result<String, WorkspaceError>)
        ensures
            stays_inside(relative@) ==> (res matches Ok(t) && t@ == resolved_target(
                workspace@,
                relative@,
            )),
            !stays_inside(relative@) ==> res == Err::<String, WorkspaceError>(
                WorkspaceError::OutsideWorkspace,
            ),
    {
        proof {
            reveal_strlit("/");
        }
        if !stays_inside_exec(relative) {
            return Err(WorkspaceError::OutsideWorkspace);
        }
        let normalized = replace_str(relative, "/", "\\");
        Ok(platform::path_join(workspace, normalized.as_str()))
    }

    /// The target of an application's source: `<app name>/<target>` inside
    /// the workspace, refused when that path would leave the workspace.
    pub fn app_target(workspace: &str, app_name: &str, target: &str) -> (res: Result<
        String,
        WorkspaceError,
    >)
        ensures
            stays_inside(app_relative(app_name@, target@)) ==> (res matches Ok(t) && t@
                == target_path(workspace@, app_name@, target@)),
            !stays_inside(app_relative(app_name@, target@)) ==> res == Err::<String, WorkspaceError>(
                WorkspaceError::OutsideWorkspace,
            ),
    {
        let with_sep = concat_str(app_name, "/");
        let relative = concat_str(with_sep.as_str(), target);
        Self::resolve_target(workspace, relative.as_str())
    }

    /// A configuration template filled in with the workspace path.
    pub fn fill_template(template: &str, workspace_path: &str) -> (res: String)
        ensures
            res@ == filled_template(template@, workspace_path@),
    {
        proof {
            reveal_strlit("\\");
            reveal_strlit("{}");
        }
        let path = replace_str(workspace_path, "\\", "/");
        replace_str(template, "{}", path.as_str())
    }

    /// The default configuration for a workspace at `workspace_path`.
    pub fn default_config(workspace_path: &str) -> (res: String)
        ensures
            res@ == filled_template(DEFAULT_CONFIG_TEMPLATE@, workspace_path@),
    {
        Self::fill_template(DEFAULT_CONFIG_TEMPLATE, workspace_path)
    }
}

} // verus!)
