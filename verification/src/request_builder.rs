//! From configuration to link requests: which applications to process, and
//! where each configured source and its target lie.
use vstd::prelude::*;

use crate::config::{enabled_entries, AppConfig, Config, Source};
use crate::link_ops::{link_type_parsed, on_exists_parsed, LinkRequest, LinkType, OnExists};
use crate::path_resolver::{expansion, from_environment, Environment, PathResolver, Placeholders};
use crate::platform;
use crate::workspace::{app_relative, stays_inside, target_path, Workspace, WorkspaceError};

verus! {

/// The identifiers of the applications to process: the enabled ones when all
/// are asked for or none is named, otherwise the named ones as given.
pub fn resolve_apps<'a>(config: &'a Config, apps: &'a [String], all: bool) -> (res: Vec<&'a String>)
    ensures
        all || apps@.len() == 0 ==> res@.len() == enabled_entries(config.apps@).len() && forall|
            k: int,
        |
            0 <= k < res@.len() ==> *(#[trigger] res@[k]) == enabled_entries(config.apps@)[k].0,
        !(all || apps@.len() == 0) ==> res@.len() == apps@.len() && forall|k: int|
            0 <= k < res@.len() ==> *(#[trigger] res@[k]) == apps@[k],
{
    let mut out: Vec<&'a String> = Vec::new();
    if all || apps.len() == 0 {
        let enabled = config.enabled_apps();
        let n = enabled.len();
        let mut i: usize = 0;
        while i < n
            invariant
                n == enabled@.len(),
                n == enabled_entries(config.apps@).len(),
                forall|k: int|
                    0 <= k < n ==> *(#[trigger] enabled@[k]).0 == enabled_entries(config.apps@)[k].0,
                i <= n,
                out@.len() == i,
                forall|k: int|
                    0 <= k < i ==> *(#[trigger] out@[k]) == enabled_entries(config.apps@)[k].0,
            decreases n - i,
        {
            out.push(enabled[i].0);
            i = i + 1;
        }
    } else {
        let n = apps.len();
        let mut i: usize = 0;
        while i < n
            invariant
                n == apps@.len(),
                i <= n,
                out@.len() == i,
                forall|k: int| 0 <= k < i ==> *(#[trigger] out@[k]) == apps@[k],
            decreases n - i,
        {
            out.push(&apps[i]);
            i = i + 1;
        }
    }
    out
}

/// The source path and the target path of a configured source, with the
/// given placeholder values. A target that would leave the workspace is
/// refused.
pub fn resolve_paths_with(
    app_config: &AppConfig,
    source: &Source,
    workspace_path: &str,
    values: &Placeholders,
) -> (res: Result<(String, String), WorkspaceError>)
    ensures
        target_stays_inside(*app_config, *source) ==> (res matches Ok(p) && p.0@ == expansion(
            source.source@,
            *values,
        ) && p.1@ == target_path(workspace_path@, app_config.name@, source.target@)),
        !target_stays_inside(*app_config, *source) ==> res == Err::<(String, String), WorkspaceError>(
            WorkspaceError::OutsideWorkspace,
        ),
{
    resolve_source_target(app_config, source, workspace_path, values)
}

/// The target of a configured source stays inside the workspace.
pub open spec fn target_stays_inside(app_config: AppConfig, source: Source) -> bool {
    stays_inside(app_relative(app_config.name@, source.target@))
}

fn resolve_source_target(
    app_config: &AppConfig,
    source: &Source,
    workspace_path: &str,
    values: &Placeholders,
) -> (res: Result<(String, String), WorkspaceError>)
    ensures
        target_stays_inside(*app_config, *source) ==> (res matches Ok(p) && p.0@ == expansion(
            source.source@,
            *values,
        ) && p.1@ == target_path(workspace_path@, app_config.name@, source.target@)),
        !target_stays_inside(*app_config, *source) ==> res == Err::<(String, String), WorkspaceError>(
            WorkspaceError::OutsideWorkspace,
        ),
{
    match Workspace::app_target(workspace_path, app_config.name.as_str(), source.target.as_str()) {
        Ok(target) => {
            let source_path = PathResolver::replace_placeholders(source.source.as_str(), values);
            Ok((source_path, target))
        },
        Err(e) => Err(e),
    }
}

/// The source path and the target path of a configured source, with the
/// directories that `dirs` reports and those that the environment `env`
/// gives. A target that would leave the workspace is refused.
pub fn resolve_paths(
    app_config: &AppConfig,
    source: &Source,
    workspace_path: &str,
    env: &Environment,
) -> (res: Result<(String, String), WorkspaceError>)
    ensures
        target_stays_inside(*app_config, *source) ==> (res matches Ok(p) && (exists|v: Placeholders|
            from_environment(v, *env) && p.0@ == #[trigger] expansion(source.source@, v)) && p.1@
            == target_path(workspace_path@, app_config.name@, source.target@)),
        !target_stays_inside(*app_config, *source) ==> res == Err::<(String, String), WorkspaceError>(
            WorkspaceError::OutsideWorkspace,
        ),
{
    let values = Placeholders::system(env);
    resolve_source_target(app_config, source, workspace_path, &values)
}

/// The link type a source asks for: its name parsed in any letter case, a
/// symbolic link when the name is unknown.
pub open spec fn requested_link_type(source: Source) -> LinkType {
    match link_type_parsed(platform::lowercase_of(source.link_type@), source.link_type@) {
        Ok(t) => t,
        Err(_) => LinkType::Symlink,
    }
}

/// The strategy an application asks for: its name parsed in any letter case,
/// `Skip` when none is given or the name is unknown.
pub open spec fn requested_on_exists(app_config: AppConfig) -> OnExists {
    let name = match app_config.on_exists {
        Some(s) => s@,
        None => "skip"@,
    };
    match on_exists_parsed(platform::lowercase_of(name), name) {
        Ok(t) => t,
        Err(_) => OnExists::Skip,
    }
}

/// The link request of a configured source with the given placeholder
/// values, with its source path and target path. A target that would leave
/// the workspace is refused.
pub fn build_link_request_with(
    app_config: &AppConfig,
    source: &Source,
    workspace_path: &str,
    force: bool,
    values: &Placeholders,
) -> (res: Result<(LinkRequest, String, String), WorkspaceError>)
    ensures
        target_stays_inside(*app_config, *source) ==> (res matches Ok(r) && built_request(
            r,
            *app_config,
            *source,
            force,
        ) && r.1@ == expansion(source.source@, *values) && r.2@ == target_path(
            workspace_path@,
            app_config.name@,
            source.target@,
        )),
        !target_stays_inside(*app_config, *source) ==> res == Err::<
            (LinkRequest, String, String),
            WorkspaceError,
        >(WorkspaceError::OutsideWorkspace),
{
    match resolve_source_target(app_config, source, workspace_path, values) {
        Ok((source_path, target_path)) => Ok(request_for(app_config, source, force, source_path, target_path)),
        Err(e) => Err(e),
    }
}

/// A built request: its source and target are the paths handed back beside
/// it, and its link type, strategy and force flag are what the
/// configuration asks for.
pub open spec fn built_request(
    r: (LinkRequest, String, String),
    app_config: AppConfig,
    source: Source,
    force: bool,
) -> bool {
    &&& r.0.source@ == r.1@
    &&& r.0.target@ == r.2@
    &&& r.0.link_type == requested_link_type(source)
    &&& r.0.on_exists == requested_on_exists(app_config)
    &&& r.0.force == force
}

fn request_for(
    app_config: &AppConfig,
    source: &Source,
    force: bool,
    source_path: String,
    target_path: String,
) -> (res: (LinkRequest, String, String))
    ensures
        built_request(res, *app_config, *source, force),
        res.1 == source_path,
        res.2 == target_path,
{
    let request = LinkRequest {
        source: source_path.clone(),
        target: target_path.clone(),
        link_type: LinkType::from_str_lossy(source.link_type.as_str()),
        on_exists: OnExists::from_str_lossy(app_config.on_exists_strategy()),
        force,
    };
    (request, source_path, target_path)
}

/// The link request of a configured source with the directories that `dirs`
/// reports and those that the environment `env` gives, with its source path
/// and target path. A target that would leave the workspace is refused.
pub fn build_link_request(
    app_config: &AppConfig,
    source: &Source,
    workspace_path: &str,
    force: bool,
    env: &Environment,
) -> (res: Result<(LinkRequest, String, String), WorkspaceError>)
    ensures
        target_stays_inside(*app_config, *source) ==> (res matches Ok(r) && built_request(
            r,
            *app_config,
            *source,
            force,
        ) && (exists|v: Placeholders|
            from_environment(v, *env) && r.1@ == #[trigger] expansion(source.source@, v)) && r.2@
            == target_path(workspace_path@, app_config.name@, source.target@)),
        !target_stays_inside(*app_config, *source) ==> res == Err::<
            (LinkRequest, String, String),
            WorkspaceError,
        >(WorkspaceError::OutsideWorkspace),
{
    let values = Placeholders::system(env);
    build_link_request_with(app_config, source, workspace_path, force, &values)
}

} // verus!
