use link_disk::commands::{
    app_header, init_workspace_path, init_writes_config, list_lines, repair_action, source_display_name, status_apps,
    status_icon, status_line, InitError, RepairAction,
};
use link_disk::config::{
    default_enabled, default_link_type, default_source_type, AppConfig, Config, Source, Workspace,
};
use link_disk::dir_ops::{DirOps, DirStep, MergeAction, MergeWalk};
use link_disk::fs_utils::Removal;
use link_disk::error::{validate_path, LinkDiskError};
use link_disk::fs_utils::FsUtils;
use link_disk::link_ops::{
    FsStep, LinkError, LinkOps, LinkRequest, LinkSnapshot, LinkType, OnExists, OnExistsAction,
    SymlinkCheck, UnlinkSnapshot,
};
use link_disk::link_status::{LinkStatus, LinkStatusChecker, PathState};
use link_disk::path_resolver::{Environment, PathResolver, Placeholders};
use link_disk::request_builder::{
    build_link_request, build_link_request_with, resolve_apps, resolve_paths, resolve_paths_with,
};
use link_disk::text::{concat_str, replace_str, split_last, str_eq};
use link_disk::workspace::{stays_inside_exec, Workspace as Ws, WorkspaceError, DEFAULT_CONFIG_TEMPLATE};

const MISSING: PathState = PathState { exists: false, is_symlink: false, is_dir: false };
const DIR: PathState = PathState { exists: true, is_symlink: false, is_dir: true };
const FILE: PathState = PathState { exists: true, is_symlink: false, is_dir: false };
const LINK_OK: PathState = PathState { exists: true, is_symlink: true, is_dir: true };
const LINK_BROKEN: PathState = PathState { exists: false, is_symlink: true, is_dir: false };

fn values() -> Placeholders {
    Placeholders {
        home: Some("C:/Users/me".to_string()),
        appdata: Some("C:/Users/me/AppData/Roaming".to_string()),
        localappdata: Some("C:/Users/me/AppData/Local".to_string()),
        documents: None,
        desktop: Some("C:/Users/me/Desktop".to_string()),
        downloads: None,
        temp: Some("C:/Users/me/AppData/Local/Temp".to_string()),
        program_files: Some("C:\\Program Files".to_string()),
        program_files_x86: None,
    }
}

fn app(name: &str, enabled: bool, on_exists: Option<&str>, sources: Vec<Source>) -> AppConfig {
    AppConfig {
        name: name.to_string(),
        enabled,
        on_exists: on_exists.map(|s| s.to_string()),
        sources,
    }
}

fn source(src: &str, tgt: &str, link_type: &str) -> Source {
    Source {
        source: src.to_string(),
        target: tgt.to_string(),
        link_type: link_type.to_string(),
        _source_type: "dir".to_string(),
    }
}

fn sample_config() -> Config {
    Config {
        workspace: Workspace { path: "D:/ws".to_string() },
        apps: vec![
            (
                "vscode".to_string(),
                app("VSCode", true, Some("skip"), vec![
                    source("<home>/AppData/Roaming/Code", "vscode/Roaming", "symlink"),
                    source("<home>/.vscode", "vscode/config", "Hardlink"),
                ]),
            ),
            ("chrome".to_string(), app("Chrome", false, Some("merge"), vec![])),
            ("nav".to_string(), app("Navigator", true, None, vec![])),
        ],
    }
}

fn request(link_type: LinkType, on_exists: OnExists, force: bool) -> LinkRequest {
    LinkRequest {
        source: "C:/data/app".to_string(),
        target: "D:/ws/App/app".to_string(),
        link_type,
        on_exists,
        force,
    }
}

fn snapshot(source: PathState, target: PathState, link: Option<&str>) -> LinkSnapshot {
    LinkSnapshot { source, target, source_link: link.map(|s| s.to_string()) }
}

// ----- text -----

#[test]
fn replace_str_replaces_every_occurrence_left_to_right() {
    assert_eq!(replace_str("a/b/c", "/", "\\"), "a\\b\\c");
    assert_eq!(replace_str("aaa", "aa", "b"), "ba");
    assert_eq!(replace_str("xyz", "q", "r"), "xyz");
    assert_eq!(replace_str("", "q", "r"), "");
}

#[test]
fn text_helpers() {
    assert!(str_eq("abc", "abc"));
    assert!(!str_eq("abc", "abd"));
    assert!(!str_eq("abc", "ab"));
    assert_eq!(concat_str("ab", "cd"), "abcd");
    assert_eq!(split_last("a/b/c", '/'), "c");
    assert_eq!(split_last("abc", '/'), "abc");
    assert_eq!(split_last("abc/", '/'), "");
}

// ----- path resolution -----

#[test]
fn replace_placeholders_with_known_values() {
    let v = values();
    assert_eq!(
        PathResolver::replace_placeholders("<home>/AppData/Roaming/Code", &v),
        "C:\\Users\\me\\AppData\\Roaming\\Code"
    );
    assert_eq!(
        PathResolver::replace_placeholders("<localappdata>/Google/Chrome", &v),
        "C:\\Users\\me\\AppData\\Local\\Google\\Chrome"
    );
    assert_eq!(PathResolver::replace_placeholders("<programfiles>/App", &v), "C:\\Program Files\\App");
}

#[test]
fn unknown_placeholders_stay() {
    let v = values();
    assert_eq!(PathResolver::replace_placeholders("<documents>/x", &v), "<documents>\\x");
    assert_eq!(PathResolver::replace_placeholders("<programfilesx86>", &v), "<programfilesx86>");
    assert_eq!(PathResolver::replace_placeholders("plain/path", &v), "plain\\path");
}

#[test]
fn expand_uses_the_given_environment() {
    let env = Environment {
        program_files: Some("PF".to_string()),
        program_files_x86: Some("PF86".to_string()),
        temp: Some("/tmp".to_string()),
    };
    assert_eq!(PathResolver::expand("<programfiles>/x", &env), "PF\\x");
    assert_eq!(PathResolver::expand("<programfilesx86>/y", &env), "PF86\\y");
    assert_eq!(PathResolver::expand("<temp>/cache/<temp>", &env), "\\tmp\\cache\\\\tmp");
    let none = Environment { program_files: None, program_files_x86: None, temp: None };
    assert_eq!(PathResolver::expand("<programfiles>/x", &none), "<programfiles>\\x");
    assert_eq!(PathResolver::expand("<temp>", &none), "<temp>");
    let p = Placeholders::system(&env);
    assert_eq!(p.temp, Some("/tmp".to_string()));
    assert_eq!(p.program_files, Some("PF".to_string()));
}

#[test]
fn expand_home_with_given_home() {
    let home = Some("/home/me".to_string());
    assert_eq!(PathResolver::expand_home_with("~", &home), "/home/me");
    assert_eq!(PathResolver::expand_home_with("~/test", &home), "/home/me/test");
    assert_eq!(PathResolver::expand_home_with("a/~", &home), "a/~");
    assert_eq!(PathResolver::expand_home_with("~/test", &None), "~/test");
}

#[test]
fn resolve_if_exists_decides_on_observation() {
    assert_eq!(PathResolver::resolve_if_exists("p".to_string(), true), Some("p".to_string()));
    assert_eq!(PathResolver::resolve_if_exists("p".to_string(), false), None);
}

// ----- configuration -----

#[test]
fn defaults() {
    assert!(default_enabled());
    assert_eq!(default_link_type(), "symlink");
    assert_eq!(default_source_type(), "dir");
}

#[test]
fn get_app_finds_first_with_identifier() {
    let mut c = sample_config();
    assert_eq!(c.get_app("chrome").unwrap().name, "Chrome");
    assert!(c.get_app("missing").is_none());
    c.apps.push(("chrome".to_string(), app("Other", true, None, vec![])));
    assert_eq!(c.get_app("chrome").unwrap().name, "Chrome");
}

#[test]
fn enabled_apps_keeps_order() {
    let c = sample_config();
    let e = c.enabled_apps();
    let ids: Vec<&str> = e.iter().map(|(k, _)| k.as_str()).collect();
    assert_eq!(ids, vec!["vscode", "nav"]);
}

#[test]
fn on_exists_strategy_defaults_to_skip() {
    let c = sample_config();
    assert_eq!(c.get_app("nav").unwrap().on_exists_strategy(), "skip");
    assert_eq!(c.get_app("chrome").unwrap().on_exists_strategy(), "merge");
}

#[test]
fn resolve_apps_selects() {
    let c = sample_config();
    let none: Vec<String> = vec![];
    let r = resolve_apps(&c, &none, false);
    assert_eq!(r.iter().map(|s| s.as_str()).collect::<Vec<_>>(), vec!["vscode", "nav"]);
    let named = vec!["chrome".to_string(), "zzz".to_string()];
    let r = resolve_apps(&c, &named, false);
    assert_eq!(r.iter().map(|s| s.as_str()).collect::<Vec<_>>(), vec!["chrome", "zzz"]);
    let r = resolve_apps(&c, &named, true);
    assert_eq!(r.iter().map(|s| s.as_str()).collect::<Vec<_>>(), vec!["vscode", "nav"]);
}

// ----- parsing -----

#[test]
fn link_type_parsing() {
    assert_eq!(LinkType::from_str("hardlink"), LinkType::Hardlink);
    assert_eq!(LinkType::from_str("HARDLINK"), LinkType::Hardlink);
    assert_eq!(LinkType::from_str("HardLink"), LinkType::Symlink);
    assert_eq!(LinkType::parse("HardLink"), Ok(LinkType::Hardlink));
    assert_eq!(LinkType::parse("SYMLINK"), Ok(LinkType::Symlink));
    assert_eq!(LinkType::parse("junction"), Err("Unknown link type: junction".to_string()));
    assert_eq!(LinkType::from_str_lossy("junction"), LinkType::Symlink);
    assert_eq!(LinkType::from_str_lossy("hardLINK"), LinkType::Hardlink);
    assert_eq!("Hardlink".parse::<LinkType>(), Ok(LinkType::Hardlink));
}

#[test]
fn on_exists_parsing() {
    assert_eq!(OnExists::from_str("Merge"), OnExists::Merge);
    assert_eq!(OnExists::from_str("OVERWRITE"), OnExists::Overwrite);
    assert_eq!(OnExists::from_str("replace"), OnExists::Replace);
    assert_eq!(OnExists::from_str("mErge"), OnExists::Skip);
    assert_eq!(OnExists::parse("mErge"), Ok(OnExists::Merge));
    assert_eq!(OnExists::parse("nope"), Err("Unknown on_exists strategy: nope".to_string()));
    assert_eq!(OnExists::from_str_lossy("nope"), OnExists::Skip);
    assert_eq!(OnExists::from_str_lossy("Replace"), OnExists::Replace);
}

#[test]
fn strategies() {
    let s = OnExists::Skip.strategy();
    assert_eq!((s.step, s.action), (None, OnExistsAction::Skip));
    let s = OnExists::Replace.strategy();
    assert_eq!((s.step, s.action), (Some(FsStep::RemoveTarget), OnExistsAction::ContinueWithMove));
    let s = OnExists::Merge.strategy();
    assert_eq!(
        (s.step, s.action),
        (Some(FsStep::MergeSourceIntoTarget), OnExistsAction::ContinueWithoutMove)
    );
    let s = OnExists::Overwrite.strategy();
    assert_eq!(
        (s.step, s.action),
        (Some(FsStep::RemoveSource), OnExistsAction::ContinueWithoutMove)
    );
}

// ----- link plans -----

#[test]
fn link_moves_source_then_links() {
    let plan = LinkOps::link_with_fs(
        &request(LinkType::Symlink, OnExists::Skip, false),
        &snapshot(DIR, MISSING, None),
    );
    assert_eq!(
        plan,
        Ok(vec![FsStep::EnsureTargetParent, FsStep::MoveSourceToTarget, FsStep::SymlinkSourceToTarget])
    );
    let plan = LinkOps::link(&request(LinkType::Hardlink, OnExists::Skip, false), &snapshot(FILE, MISSING, None));
    assert_eq!(
        plan,
        Ok(vec![FsStep::EnsureTargetParent, FsStep::MoveSourceToTarget, FsStep::HardlinkSourceToTarget])
    );
}

#[test]
fn link_with_existing_target_follows_strategy() {
    let snap = snapshot(DIR, DIR, None);
    let plan = |o| LinkOps::link_with_fs(&request(LinkType::Symlink, o, false), &snap);
    assert_eq!(plan(OnExists::Skip), Ok(vec![]));
    assert_eq!(
        plan(OnExists::Replace),
        Ok(vec![
            FsStep::RemoveTarget,
            FsStep::EnsureTargetParent,
            FsStep::MoveSourceToTarget,
            FsStep::SymlinkSourceToTarget
        ])
    );
    assert_eq!(plan(OnExists::Merge), Ok(vec![FsStep::MergeSourceIntoTarget, FsStep::SymlinkSourceToTarget]));
    assert_eq!(plan(OnExists::Overwrite), Ok(vec![FsStep::RemoveSource, FsStep::SymlinkSourceToTarget]));
}

#[test]
fn link_without_source_prepares_target() {
    let r = request(LinkType::Symlink, OnExists::Skip, false);
    assert_eq!(
        LinkOps::link_with_fs(&r, &snapshot(MISSING, MISSING, None)),
        Ok(vec![FsStep::EnsureTargetParent, FsStep::CreateTargetDir, FsStep::SymlinkSourceToTarget])
    );
    assert_eq!(
        LinkOps::link_with_fs(&r, &snapshot(MISSING, DIR, None)),
        Ok(vec![FsStep::EnsureTargetParent, FsStep::SymlinkSourceToTarget])
    );
}

#[test]
fn link_over_existing_symlink() {
    let r = request(LinkType::Symlink, OnExists::Replace, false);
    // Already pointing at the target (compared case- and separator-insensitively).
    assert_eq!(LinkOps::link_with_fs(&r, &snapshot(LINK_OK, DIR, Some("d:\\ws\\app\\APP"))), Ok(vec![]));
    assert_eq!(
        LinkOps::link_with_fs(&r, &snapshot(LINK_OK, DIR, Some("E:/elsewhere"))),
        Err(LinkError::LinkedElsewhere)
    );
    assert_eq!(LinkOps::link_with_fs(&r, &snapshot(LINK_BROKEN, MISSING, None)), Err(LinkError::LinkedElsewhere));
    let forced = request(LinkType::Symlink, OnExists::Replace, true);
    assert_eq!(
        LinkOps::link_with_fs(&forced, &snapshot(LINK_OK, DIR, Some("E:/elsewhere"))),
        Ok(vec![FsStep::RemoveSource, FsStep::EnsureTargetParent, FsStep::SymlinkSourceToTarget])
    );
}

#[test]
fn symlink_check_decisions() {
    assert_eq!(LinkOps::check_and_handle_symlink(false, false, &None, "t"), SymlinkCheck::NotALink);
    assert_eq!(LinkOps::check_and_handle_symlink(true, true, &None, "t"), SymlinkCheck::RemoveLink);
    assert_eq!(
        LinkOps::check_and_handle_symlink(true, false, &Some("A\\B".to_string()), "a/b"),
        SymlinkCheck::AlreadyLinked
    );
    assert_eq!(
        LinkOps::check_and_handle_symlink(true, false, &Some("a/c".to_string()), "a/b"),
        SymlinkCheck::LinkedElsewhere
    );
}

#[test]
fn handle_on_exists_appends_strategy_step() {
    let mut steps = vec![];
    assert_eq!(LinkOps::handle_on_exists(OnExists::Replace, false, &mut steps), OnExistsAction::ContinueWithMove);
    assert!(steps.is_empty());
    assert_eq!(LinkOps::handle_on_exists(OnExists::Replace, true, &mut steps), OnExistsAction::ContinueWithMove);
    assert_eq!(steps, vec![FsStep::RemoveTarget]);
}

// ----- unlink plans -----

#[test]
fn unlink_moves_data_back() {
    let snap = UnlinkSnapshot { source: LINK_OK, target: DIR };
    assert_eq!(
        LinkOps::unlink_with_fs(false, &snap),
        Ok(vec![
            FsStep::RemoveSource,
            FsStep::EnsureSourceParent,
            FsStep::CopyTargetDirToSource,
            FsStep::RemoveTarget
        ])
    );
    assert_eq!(LinkOps::unlink(true, &snap), Ok(vec![FsStep::RemoveSource]));
    let snap = UnlinkSnapshot { source: MISSING, target: FILE };
    assert_eq!(
        LinkOps::unlink_with_fs(false, &snap),
        Ok(vec![FsStep::EnsureSourceParent, FsStep::RenameTargetToSource])
    );
    assert_eq!(LinkOps::unlink_with_fs(true, &snap), Ok(vec![]));
}

#[test]
fn unlink_refuses_real_data() {
    let snap = UnlinkSnapshot { source: DIR, target: DIR };
    assert_eq!(LinkOps::unlink_with_fs(false, &snap), Err(LinkError::SourceNotSymlink));
}

#[test]
fn move_back_needs_data() {
    assert_eq!(DirOps::move_back(&MISSING), Err(LinkError::NothingToMoveBack));
    assert_eq!(LinkOps::move_back(&FILE), Ok(vec![FsStep::EnsureSourceParent, FsStep::RenameTargetToSource]));
}

// ----- status -----

#[test]
fn status_classification() {
    assert_eq!(LinkStatusChecker::check(&LINK_OK, &DIR), LinkStatus::Linked);
    assert_eq!(LinkStatusChecker::check(&LINK_BROKEN, &MISSING), LinkStatus::Broken);
    assert_eq!(LinkOps::check_status(&DIR, &DIR), LinkStatus::BothExist);
    assert_eq!(LinkOps::check_status(&MISSING, &DIR), LinkStatus::TargetOnly);
    assert_eq!(LinkStatus::BothExist.as_str(), "both_exist");
    assert_eq!(LinkStatus::Neither.as_str(), "none");
    assert!(LinkStatus::Linked.is_valid());
    assert!(!LinkStatus::Broken.is_valid());
    assert!(LinkStatus::Broken.is_broken());
}

// ----- merge walk -----

#[test]
fn merge_walk_never_overwrites() {
    assert!(MergeWalk::start("s", "t", &DIR, &FILE).is_err());
    let mut w = MergeWalk::start("/s", "/t", &DIR, &DIR).ok().unwrap();
    let (src, dst) = w.next_dir().unwrap();
    assert_eq!((src.as_str(), dst.as_str()), ("/s", "/t"));
    let e = w.visit_entry(&src, &dst, "sub", true, false);
    assert_eq!(e.action, MergeAction::Descend);
    assert_eq!(e.src_path, "/s/sub");
    let e = w.visit_entry(&src, &dst, "a.txt", false, false);
    assert_eq!((e.action, e.dst_path.as_str()), (MergeAction::Copy, "/t/a.txt"));
    let e = w.visit_entry(&src, &dst, "b.txt", false, true);
    assert_eq!(e.action, MergeAction::Keep);
    let (src, dst) = w.next_dir().unwrap();
    assert_eq!((src.as_str(), dst.as_str()), ("/s/sub", "/t/sub"));
    assert!(w.next_dir().is_none());
}

// ----- requests -----

#[test]
fn request_building() {
    let c = sample_config();
    let a = c.get_app("vscode").unwrap();
    let v = values();
    let (src, tgt) = resolve_paths_with(a, &a.sources[0], "D:/ws", &v).unwrap();
    assert_eq!(src, "C:\\Users\\me\\AppData\\Roaming\\Code");
    assert_eq!(tgt, Ws::resolve_target("D:/ws", "VSCode/vscode/Roaming").unwrap());
    let (req, s2, t2) = match build_link_request_with(a, &a.sources[1], "D:/ws", true, &v) {
        Ok(r) => r,
        Err(e) => panic!("refused: {:?}", e),
    };
    assert_eq!(req.link_type, LinkType::Hardlink);
    assert_eq!(req.on_exists, OnExists::Skip);
    assert!(req.force);
    assert_eq!(req.source, s2);
    assert_eq!(req.target, t2);
    assert_eq!(s2, "C:\\Users\\me\\.vscode");
}

#[test]
fn targets_outside_the_workspace_are_refused() {
    let v = values();
    let escaping = app("Esc", true, None, vec![
        source("<home>/a", "../../outside", "symlink"),
        source("<home>/d", "ok/..", "symlink"),
        source("<home>/g", "x\\..\\..\\y", "symlink"),
    ]);
    for s in &escaping.sources {
        assert_eq!(resolve_paths_with(&escaping, s, "D:/ws", &v), Err(WorkspaceError::OutsideWorkspace));
        assert!(matches!(
            build_link_request_with(&escaping, s, "D:/ws", false, &v),
            Err(WorkspaceError::OutsideWorkspace)
        ));
    }
    let dots = app("Dots", true, None, vec![source("<home>/e", "a..b/.hidden", "symlink")]);
    assert!(resolve_paths_with(&dots, &dots.sources[0], "/ws", &v).is_ok());
    let parent_app = app("..", true, None, vec![source("<home>/f", "x", "symlink")]);
    assert!(resolve_paths_with(&parent_app, &parent_app.sources[0], "/ws", &v).is_err());
    let drive_app = app("C:", true, None, vec![source("<home>/f", "x", "symlink")]);
    assert!(resolve_paths_with(&drive_app, &drive_app.sources[0], "/ws", &v).is_err());
    // Below the application's own directory, a leading separator or a colon
    // in the target stays inside.
    let inner = app("In", true, None, vec![source("<home>/b", "/abs", "symlink"), source("<home>/c", "C:/x", "symlink")]);
    assert_eq!(resolve_paths_with(&inner, &inner.sources[0], "/ws", &v).unwrap().1, "/ws/In\\\\abs");
    assert_eq!(resolve_paths_with(&inner, &inner.sources[1], "/ws", &v).unwrap().1, "/ws/In\\C:\\x");
}

// ----- workspace -----

#[test]
fn workspace_paths() {
    let home = Some("/home/me".to_string());
    assert_eq!(Ws::config_dir_in(&home).unwrap(), "/home/me/.link-disk");
    assert_eq!(Ws::config_path_in(&home).unwrap(), "/home/me/.link-disk/config.toml");
    assert!(Ws::config_path_in(&None).is_err());
    assert_eq!(Ws::resolve_target("/ws", "a/b"), Ok("/ws/a\\b".to_string()));
    assert_eq!(Ws::app_target("/ws", "App", "x/y"), Ok("/ws/App\\x\\y".to_string()));
    assert_eq!(Ws::resolve_target("/ws", "../x"), Err(WorkspaceError::OutsideWorkspace));
    assert_eq!(Ws::resolve_target("/ws", "a\\..\\..\\x"), Err(WorkspaceError::OutsideWorkspace));
    assert_eq!(Ws::resolve_target("/ws", "\\x"), Err(WorkspaceError::OutsideWorkspace));
    assert_eq!(Ws::resolve_target("/ws", "D:x"), Err(WorkspaceError::OutsideWorkspace));
    assert_eq!(Ws::resolve_target("/ws", ".."), Err(WorkspaceError::OutsideWorkspace));
    assert_eq!(Ws::app_target("/ws", "App", "../../etc"), Err(WorkspaceError::OutsideWorkspace));
    assert!(stays_inside_exec("a/b..c/..d/e.."));
    assert!(stays_inside_exec("1:x"));
    assert!(!stays_inside_exec("z:"));
    assert!(stays_inside_exec(""));
    assert!(!stays_inside_exec("a/../b"));
}

#[test]
fn workspace_templates() {
    assert_eq!(Ws::fill_template("path = \"{}\"", "D:\\w s"), "path = \"D:/w s\"");
    let cfg = Ws::default_config("E:/ws");
    assert!(cfg.contains("path = \"E:/ws\""));
    assert!(!cfg.contains("{}"));
    assert!(DEFAULT_CONFIG_TEMPLATE.contains("{}"));
}

// ----- errors -----

#[test]
fn errors_and_validation() {
    assert!(validate_path("/usr/local").is_ok());
    assert_eq!(LinkDiskError::Config("bad".to_string()).message(), "Config error: bad");
    assert_eq!(LinkDiskError::Path("p".to_string()).message(), "Path error: p");
    assert_eq!(LinkDiskError::Link("l".to_string()).message(), "Link error: l");
    let io = LinkDiskError::from(std::io::Error::new(std::io::ErrorKind::Other, "boom"));
    assert_eq!(io.message(), "IO error: boom");
    assert_eq!(FsUtils::normalize_path("C:\\Users\\ME"), "c:/users/me");
    assert_eq!(FsUtils::normalize_path("D:\\WS\\App"), "d:/ws/app");
}

// ----- commands -----

#[test]
fn init_workspace_choice() {
    assert_eq!(init_workspace_path(&Some("E:/w".to_string()), true, false), Ok("E:/w".to_string()));
    assert_eq!(init_workspace_path(&None, true, false), Err(InitError::ConfigExists));
    assert_eq!(init_workspace_path(&None, true, true), Ok("D:/link-disk-workspace".to_string()));
    assert_eq!(init_workspace_path(&None, false, false), Ok("D:/link-disk-workspace".to_string()));
}

#[test]
fn init_overwrites_config_only_when_forced() {
    assert!(init_writes_config(false, false));
    assert!(init_writes_config(false, true));
    assert!(init_writes_config(true, true));
    assert!(!init_writes_config(true, false));
}

#[test]
fn removal_follows_what_is_at_the_path() {
    assert_eq!(FsUtils::removal(&LINK_OK), Removal::Symlink);
    assert_eq!(FsUtils::removal(&LINK_BROKEN), Removal::Symlink);
    assert_eq!(FsUtils::removal(&MISSING), Removal::Nothing);
    assert_eq!(FsUtils::removal(&DIR), Removal::Directory);
    assert_eq!(FsUtils::removal(&FILE), Removal::File);
}

#[test]
fn application_identifiers_are_distinct() {
    let c = sample_config();
    assert!(c.has_distinct_keys());
    let mut twice = sample_config();
    twice.apps.push(("chrome".to_string(), app("Other", true, None, vec![])));
    assert!(!twice.has_distinct_keys());
    assert_eq!(twice.get_app("chrome").unwrap().name, "Chrome");
    let empty = Config { workspace: Workspace { path: "/w".to_string() }, apps: vec![] };
    assert!(empty.has_distinct_keys());
}

#[test]
fn merge_creates_missing_subdirectories() {
    // Source: file1.txt and subdir/file2.txt; the target is empty.
    let mut dest: std::collections::BTreeMap<String, &str> = std::collections::BTreeMap::new();
    dest.insert("/t".to_string(), "dir");
    let source: std::collections::BTreeMap<&str, Vec<(&str, bool, &str)>> = [
        ("/s", vec![("file1.txt", false, "content1"), ("subdir", true, "")]),
        ("/s/subdir", vec![("file2.txt", false, "content2")]),
    ]
    .into_iter()
    .collect();
    let mut w = MergeWalk::start("/s", "/t", &DIR, &DIR).ok().unwrap();
    while let Some((src, dst)) = w.next_dir() {
        if MergeWalk::enter_dir(dest.contains_key(&dst)) == DirStep::CreateDestination {
            dest.insert(dst.clone(), "dir");
        }
        for (name, is_dir, content) in &source[src.as_str()] {
            let exists = dest.contains_key(&format!("{}/{}", dst, name));
            let e = w.visit_entry(&src, &dst, name, *is_dir, exists);
            if e.action == MergeAction::Copy {
                dest.insert(e.dst_path.clone(), content);
            }
        }
    }
    assert_eq!(dest["/t/file1.txt"], "content1");
    assert_eq!(dest["/t/subdir"], "dir");
    assert_eq!(dest["/t/subdir/file2.txt"], "content2");
    assert_eq!(MergeWalk::enter_dir(true), DirStep::Ready);
}

#[test]
fn machine_paths_follow_the_environment() {
    let c = sample_config();
    let a = c.get_app("vscode").unwrap();
    let env = Environment { program_files: None, program_files_x86: None, temp: None };
    let (_, tgt) = resolve_paths(a, &a.sources[0], "D:/ws", &env).unwrap();
    assert_eq!(tgt, Ws::resolve_target("D:/ws", "VSCode/vscode/Roaming").unwrap());
    match build_link_request(a, &a.sources[1], "D:/ws", false, &env) {
        Ok((req, s, t)) => {
            assert_eq!(req.source, s);
            assert_eq!(req.target, t);
            assert_eq!(req.link_type, LinkType::Hardlink);
            assert!(!s.contains('/'));
        }
        Err(e) => panic!("refused: {:?}", e),
    }
}

#[test]
fn merge_gives_the_union_keeping_the_destination() {
    // Destination holds a.txt and b.txt; the source holds b.txt and c.txt.
    let mut dest: std::collections::BTreeMap<String, &str> = std::collections::BTreeMap::new();
    dest.insert("a.txt".to_string(), "dest a");
    dest.insert("b.txt".to_string(), "dest b");
    let source = [("b.txt", "src b"), ("c.txt", "src c")];
    let mut w = MergeWalk::start("/s", "/t", &DIR, &DIR).ok().unwrap();
    let (src, dst) = w.next_dir().unwrap();
    for (name, content) in source {
        let e = w.visit_entry(&src, &dst, name, false, dest.contains_key(name));
        if e.action == MergeAction::Copy {
            dest.insert(name.to_string(), content);
        }
    }
    assert!(w.next_dir().is_none());
    assert_eq!(dest.len(), 3);
    assert_eq!(dest["a.txt"], "dest a");
    assert_eq!(dest["b.txt"], "dest b");
    assert_eq!(dest["c.txt"], "src c");
}

#[test]
fn repair_decisions() {
    assert_eq!(repair_action(LinkStatus::Broken, false), RepairAction::Relink);
    assert_eq!(repair_action(LinkStatus::TargetOnly, true), RepairAction::LinkOrphanedTarget);
    assert_eq!(repair_action(LinkStatus::TargetOnly, false), RepairAction::SuggestForce);
    assert_eq!(repair_action(LinkStatus::Linked, true), RepairAction::Leave);
}

#[test]
fn display_helpers() {
    assert_eq!(source_display_name("<home>/AppData/Roaming/Code"), "Code");
    assert_eq!(status_icon(LinkStatus::Linked), "✓");
    assert_eq!(status_icon(LinkStatus::Broken), "✗");
    assert_eq!(status_icon(LinkStatus::Neither), "?");
    assert_eq!(status_line("C:\\x", LinkStatus::Broken), "  ✗ C:\\x -> broken");
}

#[test]
fn list_and_status_selection() {
    let c = sample_config();
    assert_eq!(
        list_lines(&c, &Some("vscode".to_string())),
        vec![
            "App: VSCode",
            "  <home>/AppData/Roaming/Code -> vscode/Roaming",
            "  <home>/.vscode -> vscode/config"
        ]
    );
    assert_eq!(list_lines(&c, &Some("x".to_string())), vec!["App not found: x"]);
    assert_eq!(
        list_lines(&c, &None),
        vec![
            "App: VSCode",
            "  <home>/AppData/Roaming/Code -> vscode/Roaming",
            "  <home>/.vscode -> vscode/config",
            "",
            "App: Navigator",
            ""
        ]
    );
    let names: Vec<String> = vec![];
    let sel = status_apps(&c, &names);
    assert_eq!(sel.iter().map(|a| a.name.as_str()).collect::<Vec<_>>(), vec!["VSCode", "Navigator"]);
    let names = vec!["chrome".to_string(), "zz".to_string(), "vscode".to_string()];
    let sel = status_apps(&c, &names);
    assert_eq!(sel.iter().map(|a| a.name.as_str()).collect::<Vec<_>>(), vec!["Chrome", "VSCode"]);
    assert_eq!(app_header(c.get_app("nav").unwrap()), "App: Navigator");
}

#[test]
fn status_names_are_distinct() {
    let all = [
        LinkStatus::Linked,
        LinkStatus::Broken,
        LinkStatus::BothExist,
        LinkStatus::SourceOnly,
        LinkStatus::TargetOnly,
        LinkStatus::Neither,
    ];
    for a in all.iter() {
        for b in all.iter() {
            assert_eq!(a == b, a.as_str() == b.as_str());
        }
    }
}
