use xbase::broadcast::Broadcast;
use xbase::dispatch::{ProjectMarkers, XBaseUserData};
use xbase::message::Message;
use xbase::platform::{Platform, PlatformError};
use xbase::registry::{Workspace, WorkspaceRegistry};
use xbase::run::Run;

fn markers(project_yml: bool, project_swift: bool, package_swift: bool, xcodeproj: usize) -> ProjectMarkers {
    ProjectMarkers { project_yml, project_swift, package_swift, xcodeproj }
}

fn register(registry: &mut WorkspaceRegistry, root: &str) -> bool {
    XBaseUserData::register(registry, root.to_string(), markers(true, false, false, 0), Vec::new())
}

fn strings(items: &[&str]) -> Vec<String> {
    items.iter().map(|s| s.to_string()).collect()
}

#[test]
fn any_marker_makes_a_project() {
    assert!(!markers(false, false, false, 0).found());
    assert!(markers(true, false, false, 0).found());
    assert!(markers(false, true, false, 0).found());
    assert!(markers(false, false, true, 0).found());
    assert!(markers(false, false, false, 1).found());
    assert!(markers(false, false, false, 7).found());
}

#[test]
fn register_once_then_refused() {
    let mut registry = WorkspaceRegistry::new();
    assert!(register(&mut registry, "/path/with/project.yml"));
    assert!(!register(&mut registry, "/path/with/project.yml"));
    assert!(!register(&mut registry, "/path/with/project.yml"));
    assert_eq!(registry.len(), 1);
    assert_eq!(XBaseUserData::watching(&registry, None), strings(&["/path/with/project.yml"]));
}

#[test]
fn register_without_marker_is_refused() {
    let mut registry = WorkspaceRegistry::new();
    let none = markers(false, false, false, 0);
    assert!(!XBaseUserData::register(&mut registry, "/empty".to_string(), none, Vec::new()));
    assert_eq!(registry.len(), 0);
    assert!(!registry.contains("/empty"));
    assert!(XBaseUserData::register(
        &mut registry,
        "/empty".to_string(),
        markers(false, false, false, 2),
        Vec::new()
    ));
    assert!(registry.contains("/empty"));
}

#[test]
fn register_again_after_drop() {
    let mut registry = WorkspaceRegistry::new();
    assert!(register(&mut registry, "/a"));
    assert_eq!(XBaseUserData::drop(&mut registry, Some("/a".to_string())), strings(&["/a"]));
    assert!(register(&mut registry, "/a"));
}

#[test]
fn drop_all_empties_the_registry() {
    let mut registry = WorkspaceRegistry::new();
    assert!(register(&mut registry, "/a"));
    assert!(register(&mut registry, "/b"));
    assert!(register(&mut registry, "/c"));
    assert_eq!(XBaseUserData::drop(&mut registry, None), strings(&["/a", "/b", "/c"]));
    assert_eq!(XBaseUserData::watching(&registry, None), Vec::<String>::new());
    assert_eq!(XBaseUserData::watching(&registry, Some("/a".to_string())), Vec::<String>::new());
    assert_eq!(registry.len(), 0);
    assert_eq!(XBaseUserData::drop(&mut registry, None), Vec::<String>::new());
}

#[test]
fn drop_one_leaves_the_others_in_order() {
    let mut registry = WorkspaceRegistry::new();
    for root in ["/a", "/b", "/c"] {
        assert!(register(&mut registry, root));
    }
    assert_eq!(XBaseUserData::drop(&mut registry, Some("/b".to_string())), strings(&["/b"]));
    assert_eq!(XBaseUserData::watching(&registry, None), strings(&["/a", "/c"]));
    assert!(!registry.contains("/b"));
}

#[test]
fn drop_of_unknown_root_changes_nothing() {
    let mut registry = WorkspaceRegistry::new();
    assert!(register(&mut registry, "/a"));
    assert_eq!(XBaseUserData::drop(&mut registry, Some("/zz".to_string())), Vec::<String>::new());
    assert_eq!(XBaseUserData::watching(&registry, None), strings(&["/a"]));
}

#[test]
fn watching_one_root() {
    let mut registry = WorkspaceRegistry::new();
    assert!(register(&mut registry, "/a"));
    assert!(register(&mut registry, "/b"));
    assert_eq!(XBaseUserData::watching(&registry, Some("/b".to_string())), strings(&["/b"]));
    assert_eq!(XBaseUserData::watching(&registry, Some("/c".to_string())), Vec::<String>::new());
    assert_eq!(XBaseUserData::watching(&registry, None), strings(&["/a", "/b"]));
}

#[test]
fn registry_insert_and_remove() {
    let mut registry = WorkspaceRegistry::new();
    assert!(registry.insert(Workspace::new("/a".to_string(), strings(&["**/x"]))));
    assert!(!registry.insert(Workspace::new("/a".to_string(), Vec::new())));
    let found = registry.get("/a").unwrap();
    assert_eq!(found.root(), "/a");
    assert_eq!(found.ignore_patterns(), &strings(&["**/x"]));
    assert!(found.clients().is_empty());
    assert!(registry.get("/b").is_none());
    let taken = registry.remove("/a").unwrap();
    assert_eq!(taken.root(), "/a");
    assert!(registry.remove("/a").is_none());
    assert_eq!(registry.roots(), Vec::<String>::new());
}

#[test]
fn clients_connect_in_order_and_once() {
    let mut registry = WorkspaceRegistry::new();
    assert!(register(&mut registry, "/a"));
    assert!(register(&mut registry, "/b"));
    assert!(registry.connect("/a", 30));
    assert!(registry.connect("/a", 10));
    assert!(!registry.connect("/a", 30));
    assert!(registry.connect("/b", 30));
    assert!(!registry.connect("/zz", 1));
    assert_eq!(registry.get("/a").unwrap().clients(), &vec![30, 10]);
    assert_eq!(registry.get("/b").unwrap().clients(), &vec![30]);
    assert!(registry.get("/a").unwrap().has_client(10));
    assert!(!registry.get("/b").unwrap().has_client(10));
}

#[test]
fn workspace_outlives_its_last_client() {
    let mut registry = WorkspaceRegistry::new();
    assert!(register(&mut registry, "/a"));
    assert!(registry.connect("/a", 1));
    assert!(registry.disconnect("/a", 1));
    assert!(!registry.disconnect("/a", 1));
    assert!(!registry.disconnect("/zz", 1));
    assert!(registry.contains("/a"));
    assert!(registry.get("/a").unwrap().clients().is_empty());
    assert_eq!(XBaseUserData::watching(&registry, None), strings(&["/a"]));
}

#[test]
fn disconnect_keeps_the_order_of_the_rest() {
    let mut workspace = Workspace::new("/a".to_string(), Vec::new());
    for client in [5, 6, 7, 8] {
        assert!(workspace.connect(client));
    }
    assert!(workspace.disconnect(6));
    assert_eq!(workspace.clients(), &vec![5, 7, 8]);
    assert!(!workspace.disconnect(6));
    assert!(workspace.connect(6));
    assert_eq!(workspace.clients(), &vec![5, 7, 8, 6]);
}

#[test]
fn notify_serves_clients_in_registration_order() {
    let mut registry = WorkspaceRegistry::new();
    assert!(register(&mut registry, "/a"));
    for client in [3, 1, 2] {
        assert!(registry.connect("/a", client));
    }
    let mut run = registry.notify("/a", Message::log_info("hello")).unwrap();
    assert_eq!(run.message(), &Message::log_info("hello"));
    let mut served = Vec::new();
    while let Some(client) = run.next() {
        served.push(client);
        run.record(true);
    }
    assert_eq!(served, vec![3, 1, 2]);
    assert!(run.is_done());
    assert_eq!(run.delivered(), vec![3, 1, 2]);
    assert_eq!(run.failed(), Vec::<i32>::new());
}

#[test]
fn notify_of_unknown_root_is_none() {
    let registry = WorkspaceRegistry::new();
    assert!(registry.notify("/a", Message::log_info("hello")).is_none());
}

#[test]
fn failing_client_does_not_stop_the_healthy_one() {
    let mut registry = WorkspaceRegistry::new();
    assert!(register(&mut registry, "/a"));
    assert!(registry.connect("/a", 100));
    assert!(registry.connect("/a", 200));
    let mut run = registry.notify("/a", Message::notify_error("boom")).unwrap();
    assert_eq!(run.next(), Some(100));
    run.record(false);
    assert!(!run.is_done());
    assert_eq!(run.next(), Some(200));
    run.record(true);
    assert_eq!(run.next(), None);
    assert!(run.is_done());
    assert_eq!(run.delivered(), vec![200]);
    assert_eq!(run.failed(), vec![100]);
}

#[test]
fn broadcast_counts_only_what_was_served() {
    let mut run = Broadcast::new(Message::log_info("x"), vec![1, 2, 3]);
    assert_eq!(run.delivered(), Vec::<i32>::new());
    run.record(true);
    run.record(false);
    assert_eq!(run.next(), Some(3));
    assert_eq!(run.delivered(), vec![1]);
    assert_eq!(run.failed(), vec![2]);
    run.record(false);
    run.record(true);
    run.record(true);
    assert_eq!(run.delivered(), vec![1]);
    assert_eq!(run.failed(), vec![2, 3]);
    let empty = Broadcast::new(Message::log_info("x"), Vec::new());
    assert!(empty.is_done());
    assert_eq!(empty.next(), None);
}

#[test]
fn platform_simulator_args() {
    assert_eq!(Platform::IOS.sdk_simulator_args(), strings(&["-sdk", "iphonesimulator"]));
    assert_eq!(Platform::WatchOS.sdk_simulator_args(), strings(&["-sdk", "watchsimulator"]));
    assert_eq!(Platform::TvOS.sdk_simulator_args(), strings(&["-sdk", "appletvsimulator"]));
    assert_eq!(Platform::MacOS.sdk_simulator_args(), strings(&["-sdk", "macosx"]));
    assert_eq!(Platform::Unspecified.sdk_simulator_args(), Vec::<String>::new());
}

#[test]
fn platform_predicates() {
    let all = [Platform::IOS, Platform::WatchOS, Platform::TvOS, Platform::MacOS, Platform::Unspecified];
    for p in all {
        assert_eq!(p.is_ios(), p == Platform::IOS);
        assert_eq!(p.is_watch_os(), p == Platform::WatchOS);
        assert_eq!(p.is_tv_os(), p == Platform::TvOS);
        assert_eq!(p.is_mac_os(), p == Platform::MacOS);
        assert_eq!(Platform::from_str(&p.to_string()), Ok(p));
    }
    assert_eq!(Platform::default(), Platform::Unspecified);
}

#[test]
fn platform_names() {
    assert_eq!(Platform::IOS.to_string(), "iOS");
    assert_eq!(Platform::WatchOS.to_string(), "watchOS");
    assert_eq!(Platform::TvOS.to_string(), "tvOS");
    assert_eq!(Platform::MacOS.to_string(), "macOS");
    assert_eq!(Platform::Unspecified.to_string(), "");
}

#[test]
fn platform_from_script_value() {
    assert_eq!(Platform::from_lua(Some("iOS")), Ok(Platform::IOS));
    assert_eq!(Platform::from_lua(Some("watchOS")), Ok(Platform::WatchOS));
    assert_eq!(Platform::from_lua(Some("tvOS")), Ok(Platform::TvOS));
    assert_eq!(Platform::from_lua(Some("macOS")), Ok(Platform::MacOS));
    assert_eq!(Platform::from_lua(Some("")), Err(PlatformError::Unknown));
    assert_eq!(Platform::from_lua(Some("ios")), Err(PlatformError::Unknown));
    assert_eq!(Platform::from_lua(None), Err(PlatformError::NotText));
    assert_eq!(Platform::from_str("linux"), Err(PlatformError::Unknown));
    assert_eq!(PlatformError::Unknown.to_string(), "Fail to deserialize Platform");
    assert_eq!(
        PlatformError::NotText.to_string(),
        "Fail to deserialize Platform, expected string"
    );
}

#[test]
fn run_reads_the_simulator_flag() {
    assert!(Run::new(vec!["true"]).unwrap().simulator());
    assert!(Run::new(vec!["true", "false"]).unwrap().simulator());
    assert!(!Run::new(vec!["false"]).unwrap().simulator());
    assert!(!Run::new(vec![]).unwrap().simulator());
    assert!(!Run::new(vec!["True"]).unwrap().simulator());
    assert!(!Run::new(vec!["yes", "true"]).unwrap().simulator());
    assert!(!Run::new(vec![""]).unwrap().simulator());
}

#[test]
fn run_request_words() {
    assert_eq!(
        Run::request("/repo", "App", "App2"),
        Ok(strings(&["run", "/repo", "App", "App2"]))
    );
    assert_eq!(Run::request("", "", ""), Ok(strings(&["run", "", "", ""])));
}
