use elowen_edge::contracts::DeviceRepository;
use elowen_edge::discovery::{
    branch_priority, detect_device_id, detect_device_name, discover_repositories,
    discover_repositories_from_root, discover_repository_catalog, find_repo_root_in_directory,
    list_repository_branches, parse_branches, repository_not_found, resolve_repo_root,
    should_skip_repo_scan_directory, start_scan, DirectoryEntry, EntryFailure, GitFact, Scan,
    ScanAction, ScanInput,
};
use elowen_edge::execution::ProcessRun;
use elowen_edge::paths::PathStyle;
use std::collections::BTreeMap;

/// Directories by path, each with the names of what lies in it.
struct Tree {
    directories: BTreeMap<String, Vec<(String, bool)>>,
}

impl Tree {
    fn of(paths: &[&str]) -> Tree {
        let mut directories: BTreeMap<String, Vec<(String, bool)>> = BTreeMap::new();
        for path in paths {
            let mut parent = String::new();
            for name in path.trim_start_matches('/').split('/') {
                let entries = directories.entry(parent.clone()).or_default();
                let entry = (name.to_string(), name != "file");
                if !entries.contains(&entry) {
                    entries.push(entry);
                }
                parent = format!("{parent}/{name}");
                if name != "file" {
                    directories.entry(parent.clone()).or_default();
                }
            }
        }
        Tree { directories }
    }

    fn answer(&self, action: &ScanAction) -> ScanInput {
        match action {
            ScanAction::CheckGit { path } => {
                let parent = path.strip_suffix("/.git").unwrap();
                let present = self.directories[parent].iter().any(|(name, _)| name == ".git");
                ScanInput::GitChecked {
                    fact: if present { GitFact::Present } else { GitFact::Absent },
                }
            }
            ScanAction::ListBranches { args } => {
                assert_eq!(args[0], "-C");
                assert_eq!(args[2..], ["for-each-ref", "--format=%(refname:short)", "refs/heads"]);
                ScanInput::BranchesListed {
                    run: ProcessRun::Exited {
                        success: true,
                        stdout: b"topic\nmain\n".to_vec(),
                        stderr: Vec::new(),
                    },
                }
            }
            ScanAction::ReadDirectory { directory } => ScanInput::DirectoryRead {
                entries: self.directories[directory]
                    .iter()
                    .map(|(name, is_dir)| DirectoryEntry {
                        name: Some(name.clone()),
                        is_dir: *is_dir,
                        is_symlink: name == "link",
                    })
                    .collect(),
                failure: None,
            },
            other => panic!("nothing to answer: {other:?}"),
        }
    }
}

fn strings(values: &[&str]) -> Vec<String> {
    values.iter().map(|value| value.to_string()).collect()
}

fn catalog(tree: &Tree, roots: &[&str], excluded: &[&str]) -> Vec<DeviceRepository> {
    let excluded = strings(excluded);
    let (mut scan, mut action) = start_scan(PathStyle::Posix, &strings(roots), &excluded);
    while action != ScanAction::Finish {
        let input = tree.answer(&action);
        (scan, action) = discover_repositories_from_root(PathStyle::Posix, &excluded, scan, input);
    }
    discover_repository_catalog(scan.found)
}

fn find(tree: &Tree, step: (Scan, ScanAction), excluded: &[&str], name: &str) -> Option<String> {
    let excluded = strings(excluded);
    let (mut scan, mut action) = step;
    loop {
        match action {
            ScanAction::Finish => return None,
            ScanAction::Found { directory } => return Some(directory),
            _ => {}
        }
        let input = tree.answer(&action);
        (scan, action) = find_repo_root_in_directory(
            PathStyle::Posix,
            &excluded,
            name,
            scan,
            input,
        );
    }
}

#[test]
fn excluded_paths_are_skipped_during_discovery() {
    let tree = Tree::of(&["/scan/visible-repo/.git", "/scan/private/hidden-repo/.git"]);

    let catalog = catalog(&tree, &["/scan"], &["/scan/private"]);

    assert_eq!(discover_repositories(&catalog), vec!["visible-repo".to_string()]);
    assert_eq!(catalog.len(), 1);
    assert_eq!(catalog[0].name, "visible-repo");
}

#[test]
fn excluded_paths_are_skipped_on_windows() {
    let tree = Tree::of(&["/scan/visible-repo/.git", "/scan/private/hidden-repo/.git"]);
    let excluded = strings(&[r"\\?\C:\scan\private"]);
    let plain = |path: &String| path.strip_prefix(r"\\?\C:").unwrap().replace('\\', "/");
    let mut read = Vec::new();

    let (mut scan, mut action) =
        start_scan(PathStyle::Windows, &strings(&[r"\\?\C:\scan"]), &excluded);
    while action != ScanAction::Finish {
        let input = tree.answer(&match &action {
            ScanAction::CheckGit { path } => ScanAction::CheckGit { path: plain(path) },
            ScanAction::ReadDirectory { directory } => {
                read.push(directory.clone());
                ScanAction::ReadDirectory { directory: plain(directory) }
            }
            other => other.clone(),
        });
        (scan, action) =
            discover_repositories_from_root(PathStyle::Windows, &excluded, scan, input);
    }

    let names: Vec<String> = scan.found.into_iter().map(|repository| repository.name).collect();
    assert_eq!(names, ["visible-repo"]);
    assert_eq!(read, [r"\\?\C:\scan", r"\\?\C:\scan\visible-repo"]);
}

#[test]
fn excluded_paths_are_not_considered_for_repo_resolution() {
    let tree = Tree::of(&["/resolve/private/hidden-repo/.git"]);
    let excluded = ["/resolve/private"];

    let step = start_scan(PathStyle::Posix, &strings(&["/resolve"]), &strings(&excluded));
    assert!(find(&tree, step, &excluded, "hidden-repo").is_none());

    let step = start_scan(PathStyle::Posix, &strings(&["/resolve"]), &Vec::new());
    assert_eq!(
        find(&tree, step, &[], "hidden-repo").as_deref(),
        Some("/resolve/private/hidden-repo")
    );
}

#[test]
fn scans_find_every_visible_repository_once() {
    let tree = Tree::of(&[
        "/a/zoo/.git",
        "/a/zoo/vendor/inner/.git",
        "/a/target/built/.git",
        "/a/link/linked/.git",
        "/a/file",
        "/b/zoo/.git",
        "/b/bar/.git",
        "/b/node_modules/x/.git",
    ]);
    let catalog = catalog(&tree, &["/a", "/b"], &[]);
    assert_eq!(discover_repositories(&catalog), strings(&["bar", "inner", "zoo"]));
    for repository in &catalog {
        assert_eq!(repository.branches, strings(&["main", "topic"]));
    }
}

#[test]
fn searches_go_through_the_workspace_first() {
    let tree = Tree::of(&["/w/repo/.git", "/r/repo/.git", "/r/other/.git"]);
    let roots = strings(&["/r", "/w"]);
    let step = resolve_repo_root(PathStyle::Posix, "/w", &roots, &Vec::new());
    assert_eq!(find(&tree, step, &[], "repo").as_deref(), Some("/w/repo"));
    let step = resolve_repo_root(PathStyle::Posix, "/w", &roots, &Vec::new());
    assert_eq!(find(&tree, step, &[], "other").as_deref(), Some("/r/other"));
    let step = resolve_repo_root(PathStyle::Posix, "/w", &roots, &Vec::new());
    assert_eq!(find(&tree, step, &[], "none"), None);
    assert_eq!(repository_not_found("none").to_text(), "workspace repository `none` was not found");
}

#[test]
fn scans_break_off_with_the_reason() {
    let none = Vec::new();
    let failed = |input: ScanInput| {
        let (scan, _) = start_scan(PathStyle::Posix, &strings(&["/r"]), &none);
        discover_repositories_from_root(PathStyle::Posix, &none, scan, input).1
    };
    let error = |text: &str| ScanAction::BreakOff { error: text.to_string() };
    assert_eq!(
        failed(ScanInput::GitChecked { fact: GitFact::Failed }),
        error("failed to inspect /r/.git")
    );
    assert_eq!(failed(ScanInput::DirectoryNotRead), ScanAction::Wait);

    let reading = || {
        let (scan, _) = start_scan(PathStyle::Posix, &strings(&["/r"]), &none);
        discover_repositories_from_root(
            PathStyle::Posix,
            &none,
            scan,
            ScanInput::GitChecked { fact: GitFact::Absent },
        )
            .0
    };
    assert_eq!(
        discover_repositories_from_root(
            PathStyle::Posix,
            &none,
            reading(),
            ScanInput::DirectoryNotRead,
        ).1,
        error("failed to read repository root /r")
    );
    let broken = |failure: EntryFailure| {
        let input = ScanInput::DirectoryRead { entries: Vec::new(), failure: Some(failure) };
        discover_repositories_from_root(PathStyle::Posix, &none, reading(), input).1
    };
    assert_eq!(broken(EntryFailure::Entry), error("failed to inspect /r"));
    assert_eq!(
        broken(EntryFailure::Kind { path: "/r/x".to_string() }),
        error("failed to read file type for /r/x")
    );
}

#[test]
fn branches_are_sorted_and_distinct() {
    assert_eq!(
        parse_branches(&b"topic\nmaster\nmain\n\xff\n topic \n\nalpha".to_vec()),
        strings(&["main", "master", "alpha", "topic"])
    );
    assert_eq!(branch_priority("main"), (0, "main".to_string()));
    assert_eq!(branch_priority("master"), (1, "master".to_string()));
    assert_eq!(branch_priority("x"), (2, "x".to_string()));
    assert_eq!(
        list_repository_branches("/r", &ProcessRun::NotRun).unwrap_err().to_text(),
        "failed to list branches for /r"
    );
    let failed =
        ProcessRun::Exited { success: false, stdout: Vec::new(), stderr: b" no \n".to_vec() };
    assert_eq!(
        list_repository_branches("/r", &failed).unwrap_err().to_text(),
        "git branch discovery failed for /r: no"
    );
}

#[test]
fn catalogs_are_sorted_by_name() {
    let repository = |name: &str| DeviceRepository { name: name.to_string(), branches: Vec::new() };
    let sorted = discover_repository_catalog(vec![
        repository("b"),
        repository("Z"),
        repository("a"),
        repository("é"),
    ]);
    assert_eq!(discover_repositories(&sorted), strings(&["Z", "a", "b", "é"]));
}

#[test]
fn skipped_directories_are_named() {
    for name in [".git", ".elowen", "node_modules", "target", "dist", "build", ".next"] {
        assert!(should_skip_repo_scan_directory(name), "{name}");
    }
    for name in ["src", "Target", ".github", ""] {
        assert!(!should_skip_repo_scan_directory(name), "{name}");
    }
}

#[test]
fn devices_are_named_after_their_host() {
    let some = |value: &str| Some(value.to_string());
    assert_eq!(detect_device_id(&some(" My Box "), &some("other")), "my-box");
    assert_eq!(detect_device_id(&None, &some("Host")), "host");
    assert_eq!(detect_device_id(&some("  "), &some("Host")), "elowen-edge");
    assert_eq!(detect_device_id(&None, &None), "elowen-edge");
    assert_eq!(detect_device_name(&some("My Box"), &None, "id"), "My Box");
    assert_eq!(detect_device_name(&None, &None, "id"), "id");
}
