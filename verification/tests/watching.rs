use xbase::dispatch::{ProjectMarkers, XBaseUserData};
use xbase::ignore::{fits_limits, IgnoreSet};
use xbase::level::MessageLevel;
use xbase::message::Message;
use xbase::registry::WorkspaceRegistry;
use xbase::watch::{
    get_ignore_patterns, handler, is_manifest, regenerating_notice, regeneration_report,
    ChangeKind, DataChange, DirectoryChangeEvent, Discard, EventKind, ModifyKind, NativeEvent,
    Step, Watcher, DEBOUNCE_THRESHOLD_MS, SETTLE_DELAY_MS,
};

const START: u64 = 1_000;

fn yml() -> ProjectMarkers {
    ProjectMarkers { project_yml: true, project_swift: false, package_swift: false, xcodeproj: 0 }
}

fn strings(items: &[&str]) -> Vec<String> {
    items.iter().map(|s| s.to_string()).collect()
}

fn registry_with(root: &str, extra: &[&str]) -> WorkspaceRegistry {
    let mut registry = WorkspaceRegistry::new();
    assert!(XBaseUserData::register(&mut registry, root.to_string(), yml(), strings(extra)));
    registry
}

fn watcher() -> Watcher {
    handler(&registry_with("/repo", &[]), "/repo".to_string(), START).unwrap()
}

fn event(kind: EventKind, path: &str) -> NativeEvent {
    NativeEvent { kind, paths: vec![Some(path.to_string())] }
}

fn settle(path: &str, kind: ChangeKind) -> Step {
    Step::Settle { event: DirectoryChangeEvent { path: path.to_string(), kind }, delay_ms: 1000 }
}

const CONTENT: EventKind = EventKind::Modify(ModifyKind::Data(DataChange::Content));
const RENAME: EventKind = EventKind::Modify(ModifyKind::Name);

#[test]
fn constants_are_one_millisecond_and_one_second() {
    assert_eq!(DEBOUNCE_THRESHOLD_MS, 1);
    assert_eq!(SETTLE_DELAY_MS, 1000);
}

#[test]
fn default_patterns_come_first() {
    let registry = registry_with("/repo", &["**/Info.plist", "**/*.generated.swift"]);
    assert_eq!(
        get_ignore_patterns(&registry, "/repo"),
        strings(&[
            "**/.git/**",
            "**/*.xcodeproj/**",
            "**/.*",
            "**/build/**",
            "**/buildServer.json",
            "**/Info.plist",
            "**/*.generated.swift",
        ])
    );
    assert_eq!(
        get_ignore_patterns(&registry, "/elsewhere"),
        strings(&["**/.git/**", "**/*.xcodeproj/**", "**/.*", "**/build/**", "**/buildServer.json"])
    );
}

#[test]
fn default_patterns_ignore_their_paths() {
    let w = watcher();
    assert!(w.is_ignored("repo/.git/HEAD"));
    assert!(w.is_ignored("/repo/.git/objects/ab/cdef"));
    assert!(w.is_ignored("repo/App.xcodeproj/project.pbxproj"));
    assert!(w.is_ignored("repo/.DS_Store"));
    assert!(w.is_ignored("repo/build/Debug/App.o"));
    assert!(w.is_ignored("repo/buildServer.json"));
    assert!(!w.is_ignored("repo/Sources/main.swift"));
    assert!(!w.is_ignored("repo/project.yml"));
}

#[test]
fn ignore_set_matches_any_of_its_patterns() {
    let set = IgnoreSet::new(&strings(&["src/**/*.rs", "doc/**/*.md"])).ok().unwrap();
    assert!(set.is_ignored("src/lib.rs"));
    assert!(set.is_ignored("doc/guide/intro.md"));
    assert!(!set.is_ignored("src/lib.md"));
    assert!(!set.is_ignored("lib.rs"));
    assert!(!set.is_ignored("tests/lib.rs"));
}

#[test]
fn empty_ignore_set_holds_the_empty_path_only() {
    let nothing = IgnoreSet::new(&Vec::new()).ok().unwrap();
    assert!(nothing.is_ignored(""));
    assert!(!nothing.is_ignored("src/lib.rs"));
    assert!(!nothing.is_ignored("/"));
    assert!(!nothing.is_ignored(" "));
}

#[test]
fn group_in_a_pattern_is_matched_as_a_branch() {
    let set = IgnoreSet::new(&strings(&["a{/foo,/bar,/**/baz}/qux"])).ok().unwrap();
    assert!(set.is_ignored("a/foo/qux"));
    assert!(set.is_ignored("a/bar/qux"));
    assert!(set.is_ignored("a/x/baz/qux"));
    assert!(set.is_ignored("a/foobaz/qux"));
    assert!(!set.is_ignored("a/qux"));
}

#[test]
fn pattern_within_limits() {
    assert!(fits_limits(""));
    assert!(fits_limits("**/.git/**"));
    assert!(fits_limits("a{/foo,/bar,/**/baz}/qux"));
    assert!(fits_limits("file1234567890.txt"));
    assert!(fits_limits("<a:99>"));
    assert!(fits_limits("<a:1,99><b:2><c:3>"));
    assert!(fits_limits(&"a".repeat(4096)));
    assert!(fits_limits(&"[a]".repeat(16)));
    assert!(fits_limits(&"é".repeat(2048)));
}

#[test]
fn pattern_beyond_limits() {
    assert!(!fits_limits(&"a".repeat(4097)));
    assert!(!fits_limits(&"é".repeat(2049)));
    assert!(!fits_limits(&"[a]".repeat(17)));
    assert!(!fits_limits(&"{".repeat(17)));
    assert!(!fits_limits("<a:100>"));
    assert!(!fits_limits("<a:1,100>"));
    assert!(!fits_limits("file123<a>"));
    assert!(!fits_limits("<a><b><c><d>"));
    assert!(!fits_limits("{a,{b,{c,{d,{e,{f,{g,{h,{i,{j,{k,{l,{m,{n,{o,{p,{q}}}}}}}}}}}}}}}}}"));
}

#[test]
fn pattern_beyond_limits_makes_no_ignore_set() {
    let deep = format!("{}a{}", "{".repeat(125), "}".repeat(125));
    let huge = "<a:99999999999999999999>".to_string();
    let wide = "<aa:18446744073709551615>".to_string();
    for bad in [deep, huge, wide, "<*:5000000000>".to_string()] {
        match IgnoreSet::new(&vec!["**/ok/**".to_string(), bad.clone()]) {
            Ok(_) => panic!("{bad} was accepted"),
            Err(error) => assert_eq!(
                error.reason,
                "Fail to generate ignore glob: pattern is too long, opens too many groups, or repeats too often"
            ),
        }
    }
}

#[test]
fn repetition_within_limits_is_compiled() {
    let set = IgnoreSet::new(&strings(&["<a:2>/<b/:1,3>c"])).ok().unwrap();
    assert!(set.is_ignored("aa/b/c"));
    assert!(set.is_ignored("aa/b/b/b/c"));
    assert!(!set.is_ignored("a/b/c"));
    assert!(!set.is_ignored("aa/c"));
}

#[test]
fn malformed_pattern_makes_no_ignore_set() {
    for bad in ["{unclosed", "a/[b", "<a:x>", "a/***/b"] {
        let result = IgnoreSet::new(&strings(&["**/ok/**", bad]));
        match result {
            Ok(_) => panic!("{bad} was accepted"),
            Err(error) => {
                assert!(error.reason.starts_with("Fail to generate ignore glob: "));
                assert!(error.reason.len() > "Fail to generate ignore glob: ".len());
            }
        }
    }
}

#[test]
fn malformed_extra_pattern_makes_no_watcher() {
    let registry = registry_with("/repo", &["{unclosed"]);
    assert!(handler(&registry, "/repo".to_string(), START).is_err());
    assert!(handler(&registry, "/other".to_string(), START).is_ok());
}

#[test]
fn extra_patterns_are_ignored_too() {
    let registry = registry_with("/repo", &["**/Info.plist"]);
    let w = handler(&registry, "/repo".to_string(), START).unwrap();
    assert!(w.is_ignored("/repo/App/Info.plist"));
    assert_eq!(
        w.on_event(&event(EventKind::Create, "/repo/App/Info.plist"), START + 10),
        Step::Discard(Discard::Ignored)
    );
    assert!(!watcher().is_ignored("/repo/App/Info.plist"));
}

#[test]
fn new_watcher_starts_at_the_given_time() {
    let w = watcher();
    assert_eq!(w.root(), "/repo");
    assert_eq!(w.last_event_at(), START);
    assert_eq!(w.last_seen(), "");
}

#[test]
fn event_without_path_is_discarded() {
    let w = watcher();
    let none = NativeEvent { kind: EventKind::Create, paths: vec![] };
    assert_eq!(w.on_event(&none, START + 10), Step::Discard(Discard::NoPath));
    let undecodable =
        NativeEvent { kind: EventKind::Create, paths: vec![None, Some("/repo/a".to_string())] };
    assert_eq!(w.on_event(&undecodable, START + 10), Step::Discard(Discard::NoPath));
}

#[test]
fn first_path_is_the_primary_path() {
    let w = watcher();
    let two = NativeEvent {
        kind: EventKind::Create,
        paths: vec![Some("/repo/a.swift".to_string()), Some("/repo/.git/HEAD".to_string())],
    };
    assert_eq!(w.on_event(&two, START + 10), settle("/repo/a.swift", ChangeKind::Create));
}

#[test]
fn ignored_path_is_discarded() {
    let w = watcher();
    assert_eq!(
        w.on_event(&event(EventKind::Create, "repo/.git/HEAD"), START + 10),
        Step::Discard(Discard::Ignored)
    );
    assert_eq!(
        w.on_event(&event(EventKind::Create, "repo/.git/HEAD"), START),
        Step::Discard(Discard::Ignored)
    );
}

#[test]
fn events_within_a_millisecond_are_discarded() {
    let w = watcher();
    let e = event(EventKind::Create, "/repo/a.swift");
    assert_eq!(w.on_event(&e, START), Step::Discard(Discard::Debounced));
    assert_eq!(w.on_event(&e, START + 1), Step::Discard(Discard::Debounced));
    assert_eq!(w.on_event(&e, START - 5), Step::Discard(Discard::Debounced));
    assert_eq!(w.on_event(&e, 0), Step::Discard(Discard::Debounced));
}

#[test]
fn events_after_a_millisecond_are_evaluated() {
    let w = watcher();
    let e = event(EventKind::Create, "/repo/a.swift");
    assert_eq!(w.on_event(&e, START + 2), settle("/repo/a.swift", ChangeKind::Create));
    assert_eq!(w.on_event(&e, u64::MAX), settle("/repo/a.swift", ChangeKind::Create));
}

#[test]
fn second_event_after_handling_is_debounced() {
    let mut w = watcher();
    let e = event(EventKind::Remove, "/repo/a.swift");
    assert_eq!(w.on_event(&e, START + 5), settle("/repo/a.swift", ChangeKind::Remove));
    w.on_regenerated(START + 1_100);
    assert_eq!(w.last_event_at(), START + 1_100);
    assert_eq!(w.on_event(&e, START + 1_100), Step::Discard(Discard::Debounced));
    assert_eq!(w.on_event(&e, START + 1_101), Step::Discard(Discard::Debounced));
    assert_eq!(w.on_event(&e, START + 1_102), settle("/repo/a.swift", ChangeKind::Remove));
}

#[test]
fn last_event_time_never_goes_back() {
    let mut w = watcher();
    w.on_regenerated(START + 50);
    assert_eq!(w.last_event_at(), START + 50);
    w.on_regenerated(START + 10);
    assert_eq!(w.last_event_at(), START + 50);
    w.on_regenerated(START + 50);
    assert_eq!(w.last_event_at(), START + 50);
    w.on_regenerated(u64::MAX);
    assert_eq!(w.last_event_at(), u64::MAX);
}

#[test]
fn create_and_remove_settle() {
    let w = watcher();
    assert_eq!(
        w.on_event(&event(EventKind::Create, "/repo/New.swift"), START + 2),
        settle("/repo/New.swift", ChangeKind::Create)
    );
    assert_eq!(
        w.on_event(&event(EventKind::Remove, "/repo/Old.swift"), START + 2),
        settle("/repo/Old.swift", ChangeKind::Remove)
    );
}

#[test]
fn content_change_counts_only_for_the_manifest() {
    let w = watcher();
    assert_eq!(
        w.on_event(&event(CONTENT, "/repo/project.yml"), START + 2),
        settle("/repo/project.yml", ChangeKind::ContentModify)
    );
    assert_eq!(
        w.on_event(&event(CONTENT, "project.yml"), START + 2),
        settle("project.yml", ChangeKind::ContentModify)
    );
    for path in [
        "/repo/Sources/main.swift",
        "/repo/project.yml.bak",
        "/repo/myproject.yml",
        "/repo/project.yml/other",
        "/repo/project.yaml",
    ] {
        assert_eq!(w.on_event(&event(CONTENT, path), START + 2), Step::Discard(Discard::NotManifest));
    }
}

#[test]
fn content_change_elsewhere_is_discarded_whatever_the_time() {
    let w = watcher();
    let e = event(CONTENT, "/repo/Sources/main.swift");
    for now in [0, START, START + 1, START + 2, START + 5_000, u64::MAX] {
        assert!(matches!(w.on_event(&e, now), Step::Discard(_)));
    }
}

#[test]
fn other_kinds_are_discarded() {
    let w = watcher();
    for kind in [
        EventKind::Any,
        EventKind::Access,
        EventKind::Other,
        EventKind::Modify(ModifyKind::Any),
        EventKind::Modify(ModifyKind::Metadata),
        EventKind::Modify(ModifyKind::Other),
        EventKind::Modify(ModifyKind::Data(DataChange::Any)),
        EventKind::Modify(ModifyKind::Data(DataChange::Size)),
        EventKind::Modify(ModifyKind::Data(DataChange::Other)),
    ] {
        assert_eq!(
            w.on_event(&event(kind, "/repo/project.yml"), START + 2),
            Step::Discard(Discard::Kind)
        );
    }
}

#[test]
fn rename_asks_for_a_probe() {
    let w = watcher();
    assert_eq!(
        w.on_event(&event(RENAME, "/repo/B.swift"), START + 2),
        Step::Probe { path: "/repo/B.swift".to_string() }
    );
}

#[test]
fn rename_to_missing_path_is_discarded() {
    let mut w = watcher();
    assert_eq!(w.on_probe("/repo/B.swift".to_string(), false), Step::Discard(Discard::Missing));
    assert_eq!(
        w.on_probe("/repo/B.swift".to_string(), true),
        settle("/repo/B.swift", ChangeKind::Rename)
    );
}

#[test]
fn second_rename_to_same_path_is_discarded() {
    let mut w = watcher();
    assert_eq!(
        w.on_probe("/repo/B.swift".to_string(), true),
        settle("/repo/B.swift", ChangeKind::Rename)
    );
    assert_eq!(w.on_probe("/repo/B.swift".to_string(), true), Step::Discard(Discard::Duplicate));
    assert_eq!(w.on_probe("/repo/B.swift".to_string(), true), Step::Discard(Discard::Duplicate));
    assert_eq!(
        w.on_probe("/repo/C.swift".to_string(), true),
        settle("/repo/C.swift", ChangeKind::Rename)
    );
    assert_eq!(
        w.on_probe("/repo/B.swift".to_string(), true),
        settle("/repo/B.swift", ChangeKind::Rename)
    );
}

#[test]
fn rename_to_manifest_always_settles() {
    let mut w = watcher();
    for _ in 0..3 {
        assert_eq!(
            w.on_probe("/repo/project.yml".to_string(), true),
            settle("/repo/project.yml", ChangeKind::Rename)
        );
    }
    assert_eq!(
        w.on_probe("/repo/B.swift".to_string(), true),
        settle("/repo/B.swift", ChangeKind::Rename)
    );
    assert_eq!(
        w.on_probe("/repo/project.yml".to_string(), true),
        settle("/repo/project.yml", ChangeKind::Rename)
    );
    assert_eq!(w.on_probe("/repo/B.swift".to_string(), true), Step::Discard(Discard::Duplicate));
}

#[test]
fn should_ignore_remembers_the_last_path() {
    let mut w = watcher();
    assert!(!w.should_ignore("/repo/a"));
    assert_eq!(w.last_seen(), "/repo/a");
    assert!(w.should_ignore("/repo/a"));
    assert!(!w.should_ignore("/repo/project.yml"));
    assert_eq!(w.last_seen(), "/repo/a");
    assert!(!w.should_ignore("/repo/project.yml"));
    assert!(w.should_ignore("/repo/a"));
    assert!(!w.should_ignore("/repo/b"));
    assert!(!w.should_ignore("/repo/a"));
}

#[test]
fn fresh_watcher_has_seen_the_empty_path() {
    let mut w = watcher();
    assert!(w.should_ignore(""));
}

#[test]
fn manifest_is_the_last_segment() {
    assert!(is_manifest("project.yml"));
    assert!(is_manifest("/project.yml"));
    assert!(is_manifest("/a/b/project.yml"));
    assert!(!is_manifest("aproject.yml"));
    assert!(!is_manifest("/a/project.yml/"));
    assert!(!is_manifest("/a/Project.yml"));
    assert!(!is_manifest(""));
    assert!(!is_manifest("yml"));
}

#[test]
fn regeneration_messages() {
    assert_eq!(
        regenerating_notice(),
        Message::Notify {
            msg: "Regenerating compilation database ..".to_string(),
            level: MessageLevel::Info
        }
    );
    assert_eq!(
        regeneration_report(Ok(())),
        Message::Log {
            msg: "Compilation database regenerated.".to_string(),
            level: MessageLevel::Success
        }
    );
    assert_eq!(
        regeneration_report(Err("xcodegen failed".to_string())),
        Message::Log {
            msg: "[CompileCommands] xcodegen failed".to_string(),
            level: MessageLevel::Error
        }
    );
}
