//! The decisions of the command-line commands, apart from their input and
//! output: which workspace to set up, which applications to show or check,
//! what to do about each link when repairing, and the lines that are shown.
use vstd::prelude::*;

use crate::config::{enabled_entries, first_index_of, AppConfig, Config, Source};
use crate::link_status::{status_name, status_of, LinkStatus, PathState};
use crate::text::{after_last, concat_str, split_last};

verus! {

/// The workspace path used when none is given.
pub const DEFAULT_WORKSPACE_PATH: &'static str = "D:/link-disk-workspace";

/// Why `init` refuses to run.
#[derive(Clone, Copy, Debug, PartialEq, Eq, Structural)]
pub enum InitError {
    /// A configuration file exists and `force` was not given.
    ConfigExists,
}

/// The workspace that `init` sets up: the given path; with none, the default
/// one, unless a configuration already exists and `force` was not given.
pub fn init_workspace_path(path: &Option<String>, config_exists: bool, force: bool) -> (res: Result<
    String,
    InitError,
>)
    ensures
        match path {
            Some(p) => res matches Ok(w) && w@ == p@,
            None => if config_exists && !force {
                res == Err::<String, InitError>(InitError::ConfigExists)
            } else {
                res matches Ok(w) && w@ == DEFAULT_WORKSPACE_PATH@
            },
        },
{
    match path {
        Some(p) => Ok(p.clone()),
        None => {
            if config_exists && !force {
                Err(InitError::ConfigExists)
            } else {
                Ok(String::from_str(DEFAULT_WORKSPACE_PATH))
            }
        },
    }
}

/// Whether `init` writes the configuration file: when none exists yet, or
/// when `force` asks for the workspace to be set up anew.
pub fn init_writes_config(config_exists: bool, force: bool) -> (res: bool)
    ensures
        res == (!config_exists || force),
{
    !config_exists || force
}

/// What `repair` does about one link.
#[derive(Clone, Copy, Debug, PartialEq, Eq, Structural)]
pub enum RepairAction {
    /// Remove the broken link and link again, with `force`.
    Relink,
    /// Create a symbolic link at the source to the orphaned target.
    LinkOrphanedTarget,
    /// Tell the user that `--force` would create the missing link.
    SuggestForce,
    /// Leave the link as it is.
    Leave,
}

/// The repair decision for a link in the given status.
pub open spec fn repair_action_of(status: LinkStatus, force: bool) -> RepairAction {
    match status {
        LinkStatus::Broken => RepairAction::Relink,
        LinkStatus::TargetOnly => if force {
            RepairAction::LinkOrphanedTarget
        } else {
            RepairAction::SuggestForce
        },
        _ => RepairAction::Leave,
    }
}

/// What `repair` does about a link in the given status: a broken link is
/// made again; a target without a link gets one only with `force`; every
/// other status is left alone.
pub fn repair_action(status: LinkStatus, force: bool) -> (res: RepairAction)
    ensures
        res == repair_action_of(status, force),
{
    match status {
        LinkStatus::Broken => RepairAction::Relink,
        LinkStatus::TargetOnly => {
            if force {
                RepairAction::LinkOrphanedTarget
            } else {
                RepairAction::SuggestForce
            }
        },
        _ => RepairAction::Leave,
    }
}

/// Repair acts only on broken links and orphaned targets, judged from what
/// was observed of the two paths: a link is made again exactly when the
/// source is a symbolic link whose target is gone; a link to an orphaned
/// target (nothing at the source, data at the target) is created exactly
/// when `force` is given, and suggested otherwise; everything else, a source
/// that still holds its data among it, is left alone.
pub proof fn lemma_repair_acts_only_on_broken_or_orphaned(
    source: PathState,
    target: PathState,
    force: bool,
)
    ensures
        ({
            let status = status_of(source, target);
            let orphaned = !source.is_symlink && !source.exists && target.exists;
            &&& repair_action_of(status, force) == RepairAction::Relink <==> (source.is_symlink
                && !target.exists)
            &&& repair_action_of(status, force) == RepairAction::LinkOrphanedTarget <==> (orphaned
                && force)
            &&& repair_action_of(status, force) == RepairAction::SuggestForce <==> (orphaned
                && !force)
            &&& repair_action_of(status, force) != RepairAction::Leave ==> status
                == LinkStatus::Broken || status == LinkStatus::TargetOnly
            &&& !source.is_symlink && source.exists ==> repair_action_of(status, force)
                == RepairAction::Leave
        }),
{
}

/// The mark shown for a status.
pub open spec fn icon_of(status: LinkStatus) -> Seq<char> {
    match status {
        LinkStatus::Linked => "✓"@,
        LinkStatus::Broken => "✗"@,
        _ => "?"@,
    }
}

/// The mark shown for a status: a tick when linked, a cross when broken, a
/// question mark otherwise.
pub fn status_icon(status: LinkStatus) -> (res: &'static str)
    ensures
        res@ == icon_of(status),
{
    match status {
        LinkStatus::Linked => "✓",
        LinkStatus::Broken => "✗",
        _ => "?",
    }
}

/// The short name of a configured source: its last `/`-separated part.
pub fn source_display_name(source: &str) -> (res: String)
    ensures
        res@ == after_last(source@, '/'),
{
    split_last(source, '/')
}

/// The configurations of the applications that `status` checks: the enabled
/// ones when none is named, else each named one that is configured, in the
/// order named.
pub open spec fn selected_apps(apps: Seq<(String, AppConfig)>, names: Seq<String>) -> Seq<AppConfig>
    decreases names.len(),
{
    if names.len() == 0 {
        Seq::empty()
    } else {
        let rest = selected_apps(apps, names.drop_last());
        match first_index_of(apps, names.last()@) {
            Some(i) => rest.push(apps[i].1),
            None => rest,
        }
    }
}

/// The configurations of the applications that `status` checks.
pub open spec fn status_selection(apps: Seq<(String, AppConfig)>, names: Seq<String>) -> Seq<
    AppConfig,
> {
    if names.len() == 0 {
        enabled_entries(apps).map_values(|e: (String, AppConfig)| e.1)
    } else {
        selected_apps(apps, names)
    }
}

/// The applications whose links `status` checks: the enabled ones when none
/// is named, otherwise every named one that is configured, in the order
/// named.
pub fn status_apps<'a>(config: &'a Config, apps: &[String]) -> (res: Vec<&'a AppConfig>)
    ensures
        res@.len() == status_selection(config.apps@, apps@).len(),
        forall|k: int|
            0 <= k < res@.len() ==> *(#[trigger] res@[k]) == status_selection(config.apps@, apps@)[k],
{
    let mut out: Vec<&'a AppConfig> = Vec::new();
    if apps.len() == 0 {
        let enabled = config.enabled_apps();
        let n = enabled.len();
        let ghost sel = enabled_entries(config.apps@).map_values(|e: (String, AppConfig)| e.1);
        let mut i: usize = 0;
        while i < n
            invariant
                n == enabled@.len(),
                n == enabled_entries(config.apps@).len(),
                sel == enabled_entries(config.apps@).map_values(|e: (String, AppConfig)| e.1),
                forall|k: int|
                    0 <= k < n ==> *(#[trigger] enabled@[k]).1 == enabled_entries(config.apps@)[k].1,
                i <= n,
                out@.len() == i,
                forall|k: int| 0 <= k < i ==> *(#[trigger] out@[k]) == sel[k],
            decreases n - i,
        {
            out.push(enabled[i].1);
            i = i + 1;
        }
    } else {
        let n = apps.len();
        let mut i: usize = 0;
        while i < n
            invariant
                n == apps@.len(),
                n > 0,
                i <= n,
                out@.len() == selected_apps(config.apps@, apps@.take(i as int)).len(),
                forall|k: int|
                    0 <= k < out@.len() ==> *(#[trigger] out@[k]) == selected_apps(
                        config.apps@,
                        apps@.take(i as int),
                    )[k],
            decreases n - i,
        {
            proof {
                assert(apps@.take(i + 1).drop_last() =~= apps@.take(i as int));
            }
            match config.get_app(apps[i].as_str()) {
                Some(a) => out.push(a),
                None => {},
            }
            i = i + 1;
        }
        assert(apps@.take(n as int) =~= apps@);
    }
    out
}

/// The lines that show the sources of an application.
pub open spec fn source_lines(sources: Seq<Source>) -> Seq<Seq<char>>
    decreases sources.len(),
{
    if sources.len() == 0 {
        Seq::empty()
    } else {
        source_lines(sources.drop_last()).push(
            "  "@ + sources.last().source@ + " -> "@ + sources.last().target@,
        )
    }
}

/// The lines that show an application: its name, then one line per source.
pub open spec fn app_lines_of(app: AppConfig) -> Seq<Seq<char>> {
    seq!["App: "@ + app.name@] + source_lines(app.sources@)
}

/// The lines that show several applications, each followed by an empty line.
pub open spec fn listing(entries: Seq<(String, AppConfig)>) -> Seq<Seq<char>>
    decreases entries.len(),
{
    if entries.len() == 0 {
        Seq::empty()
    } else {
        listing(entries.drop_last()) + app_lines_of(entries.last().1) + seq![Seq::<char>::empty()]
    }
}

/// What `list` shows: the named application, or a note that it is not
/// configured; with no name, every enabled application.
pub open spec fn list_output(apps: Seq<(String, AppConfig)>, app: Option<String>) -> Seq<Seq<char>> {
    match app {
        Some(id) => match first_index_of(apps, id@) {
            Some(i) => app_lines_of(apps[i].1),
            None => seq!["App not found: "@ + id@],
        },
        None => listing(enabled_entries(apps)),
    }
}

/// Lines taken as text.
pub open spec fn lines_view(lines: Seq<String>) -> Seq<Seq<char>> {
    lines.map_values(|s: String| s@)
}

/// Appends the lines that show an application.
pub fn push_app_lines(app: &AppConfig, lines: &mut Vec<String>)
    ensures
        lines_view(final(lines)@) == lines_view(old(lines)@) + app_lines_of(*app),
{
    let ghost start = lines_view(lines@);
    lines.push(concat_str("App: ", app.name.as_str()));
    let n = app.sources.len();
    let mut i: usize = 0;
    proof {
        assert(app.sources@.take(0) =~= Seq::<Source>::empty());
        assert(lines_view(lines@) =~= start + seq!["App: "@ + app.name@] + source_lines(
            app.sources@.take(0),
        ));
    }
    while i < n
        invariant
            n == app.sources@.len(),
            i <= n,
            lines_view(lines@) == start + seq!["App: "@ + app.name@] + source_lines(
                app.sources@.take(i as int),
            ),
        decreases n - i,
    {
        let s = &app.sources[i];
        let a = concat_str("  ", s.source.as_str());
        let b = concat_str(a.as_str(), " -> ");
        let line = concat_str(b.as_str(), s.target.as_str());
        let ghost before = lines@;
        lines.push(line);
        proof {
            assert(app.sources@.take(i + 1).drop_last() =~= app.sources@.take(i as int));
            assert(lines_view(lines@) =~= lines_view(before).push(line@));
        }
        i = i + 1;
    }
    proof {
        assert(app.sources@.take(n as int) =~= app.sources@);
        assert(lines_view(lines@) =~= start + app_lines_of(*app));
    }
}

/// The lines that `list` shows.
pub fn list_lines(config: &Config, app: &Option<String>) -> (res: Vec<String>)
    ensures
        lines_view(res@) == list_output(config.apps@, *app),
{
    let mut lines: Vec<String> = Vec::new();
    match app {
        Some(id) => {
            match config.get_app(id.as_str()) {
                Some(a) => {
                    push_app_lines(a, &mut lines);
                    assert(lines_view(lines@) =~= app_lines_of(*a));
                },
                None => {
                    lines.push(concat_str("App not found: ", id.as_str()));
                    assert(lines_view(lines@) =~= seq!["App not found: "@ + id@]);
                },
            }
        },
        None => {
            let enabled = config.enabled_apps();
            let n = enabled.len();
            let ghost entries = enabled_entries(config.apps@);
            let mut i: usize = 0;
            assert(lines_view(lines@) =~= listing(entries.take(0)));
            while i < n
                invariant
                    n == enabled@.len(),
                    entries == enabled_entries(config.apps@),
                    n == entries.len(),
                    forall|k: int| 0 <= k < n ==> *(#[trigger] enabled@[k]).1 == entries[k].1,
                    i <= n,
                    lines_view(lines@) == listing(entries.take(i as int)),
                decreases n - i,
            {
                push_app_lines(enabled[i].1, &mut lines);
                let ghost before = lines@;
                lines.push(String::new());
                proof {
                    assert(entries.take(i + 1).drop_last() =~= entries.take(i as int));
                    assert(lines_view(lines@) =~= lines_view(before).push(Seq::<char>::empty()));
                }
                i = i + 1;
            }
            assert(entries.take(n as int) =~= entries);
        },
    }
    lines
}

/// The line that `status` shows for one source.
pub fn status_line(source_display: &str, status: LinkStatus) -> (res: String)
    ensures
        res@ == "  "@ + icon_of(status) + " "@ + source_display@ + " -> "@ + status_name(status),
{
    let a = concat_str("  ", status_icon(status));
    let b = concat_str(a.as_str(), " ");
    let c = concat_str(b.as_str(), source_display);
    let d = concat_str(c.as_str(), " -> ");
    concat_str(d.as_str(), status.as_str())
}

/// The line that heads an application in `status` and `list`.
pub fn app_header(app: &AppConfig) -> (res: String)
    ensures
        res@ == "App: "@ + app.name@,
{
    concat_str("App: ", app.name.as_str())
}

} // verus!
