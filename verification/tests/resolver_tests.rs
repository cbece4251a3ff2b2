use hud_core::locks::{count_other_session_locks, find_child_lock, find_matching_child_lock,
    get_lock_info, is_session_running, lock_dir_name, session_lock_dir_name};
use hud_core::resolver::{resolve_state, resolve_state_with_details};
use hud_core::store::StateStore;
use hud_core::types::{LockEntry, LockInfo, SessionState};

fn lock_at(path: &str) -> LockEntry {
    lock_with(path, 1234, None)
}

fn lock_with(path: &str, pid: u32, created: Option<u64>) -> LockEntry {
    LockEntry {
        dir_name: lock_dir_name(path),
        info: LockInfo { pid, path: path.to_string(), proc_started: None, created },
    }
}

fn session_lock(session_id: &str, path: &str, pid: u32) -> LockEntry {
    LockEntry {
        dir_name: session_lock_dir_name(session_id),
        info: LockInfo { pid, path: path.to_string(), proc_started: None, created: None },
    }
}

#[test]
fn resolve_none_when_not_running() {
    let locks: Vec<LockEntry> = Vec::new();
    let store = StateStore::new_in_memory();
    assert_eq!(resolve_state(&locks, &store, "/project", 0), None);
}

#[test]
fn resolve_ready_when_running_but_no_record() {
    let locks = vec![lock_at("/project")];
    let store = StateStore::new_in_memory();
    let resolved = resolve_state_with_details(&locks, &store, "/project", 0).unwrap();
    assert_eq!(resolved.state, SessionState::Ready);
    assert!(resolved.session_id.is_none());
    assert_eq!(resolved.cwd, "/project");
    assert!(resolved.is_from_lock);
}

#[test]
fn resolve_uses_record_state_when_running() {
    let locks = vec![lock_at("/project")];
    let mut store = StateStore::new_in_memory();
    store.update_at("s1", SessionState::Working, "/project", 0);
    let resolved = resolve_state_with_details(&locks, &store, "/project", 0).unwrap();
    assert_eq!(resolved.state, SessionState::Working);
    assert_eq!(resolved.session_id.as_deref(), Some("s1"));
}

#[test]
fn parent_query_inherits_child_lock_and_child_record() {
    let locks = vec![lock_at("/project/apps/swift")];
    let mut store = StateStore::new_in_memory();
    store.update_at("child", SessionState::Working, "/project/apps/swift", 0);
    let resolved = resolve_state_with_details(&locks, &store, "/project", 0).unwrap();
    assert_eq!(resolved.state, SessionState::Working);
    assert_eq!(resolved.session_id.as_deref(), Some("child"));
    assert_eq!(resolved.cwd, "/project/apps/swift");
}

#[test]
fn resolve_matches_record_by_project_dir_when_cwd_is_unrelated() {
    let locks = vec![lock_at("/project")];
    let mut store = StateStore::new_in_memory();
    store.update_at("s1", SessionState::Working, "/wrong", 0);
    store.set_project_dir_for_test("s1", Some("/project".to_string()));

    let resolved = resolve_state_with_details(&locks, &store, "/project", 0).unwrap();
    assert_eq!(resolved.state, SessionState::Working);
    assert_eq!(resolved.session_id.as_deref(), Some("s1"));
}

#[test]
fn fresh_record_fallback_when_no_lock() {
    let locks: Vec<LockEntry> = Vec::new();
    let mut store = StateStore::new_in_memory();
    store.update_at("s1", SessionState::Working, "/project", 5);
    let resolved = resolve_state_with_details(&locks, &store, "/project", 10).unwrap();
    assert_eq!(resolved.state, SessionState::Working);
    assert_eq!(resolved.session_id.as_deref(), Some("s1"));
    assert!(!resolved.is_from_lock);
}

#[test]
fn stale_record_no_fallback_when_no_lock() {
    let locks: Vec<LockEntry> = Vec::new();
    let mut store = StateStore::new_in_memory();
    store.update_at("s1", SessionState::Working, "/project", 0);
    let resolved = resolve_state_with_details(&locks, &store, "/project", 60);
    assert!(resolved.is_none());
}

#[test]
fn scenario_exact_beats_fresher_parent() {
    // A stale exact-match session keeps the query against a fresh session at
    // the parent directory; its state downgrades to Ready but its identity
    // stays.
    let now: i64 = 10_000;
    let locks = vec![lock_at("/p/capacitor")];
    let mut store = StateStore::new_in_memory();
    store.update_at("capacitor-session", SessionState::Ready, "/p/capacitor", now - 600);
    store.update_at("home-session", SessionState::Working, "/p", now);

    let resolved = resolve_state_with_details(&locks, &store, "/p/capacitor", now).unwrap();
    assert_eq!(resolved.state, SessionState::Ready);
    assert_eq!(resolved.session_id.as_deref(), Some("capacitor-session"));
    assert_eq!(resolved.cwd, "/p/capacitor");
    assert!(resolved.is_from_lock);
}

#[test]
fn scenario_monorepo_root_finds_child() {
    let locks = vec![lock_at("/ws/pkg/a")];
    let mut store = StateStore::new_in_memory();
    store.update_at("a-sess", SessionState::Working, "/ws/pkg/a", 0);
    let resolved = resolve_state_with_details(&locks, &store, "/ws", 0).unwrap();
    assert_eq!(resolved.state, SessionState::Working);
    assert_eq!(resolved.session_id.as_deref(), Some("a-sess"));
    assert_eq!(resolved.cwd, "/ws/pkg/a");
}

#[test]
fn scenario_sibling_isolation() {
    let locks = vec![lock_at("/ws/a")];
    let mut store = StateStore::new_in_memory();
    store.update_at("a-sess", SessionState::Working, "/ws/a", 0);
    assert!(resolve_state_with_details(&locks, &store, "/ws/b", 0).is_none());
}

#[test]
fn scenario_fresh_record_fallback() {
    let locks: Vec<LockEntry> = Vec::new();
    let mut store = StateStore::new_in_memory();
    store.update_at("s1", SessionState::Working, "/p", 100);
    let resolved = resolve_state_with_details(&locks, &store, "/p", 105).unwrap();
    assert_eq!(resolved.state, SessionState::Working);
    assert_eq!(resolved.session_id.as_deref(), Some("s1"));
    assert_eq!(resolved.cwd, "/p");
    assert!(!resolved.is_from_lock);
}

#[test]
fn scenario_stale_record_no_fallback() {
    let locks: Vec<LockEntry> = Vec::new();
    let mut store = StateStore::new_in_memory();
    store.update_at("s1", SessionState::Working, "/p", 100);
    assert!(resolve_state_with_details(&locks, &store, "/p", 160).is_none());
}

#[test]
fn fallback_never_surfaces_idle() {
    let locks: Vec<LockEntry> = Vec::new();
    let mut store = StateStore::new_in_memory();
    store.update_at("s1", SessionState::Idle, "/p", 100);
    assert!(resolve_state_with_details(&locks, &store, "/p", 100).is_none());
}

#[test]
fn newest_lock_wins() {
    let locks = vec![
        lock_with("/p/a", 1, Some(100)),
        lock_with("/p/b", 2, Some(300)),
        lock_with("/p/c", 3, Some(200)),
    ];
    let best = find_matching_child_lock(&locks, "/p", None, None).unwrap();
    assert_eq!(best.path, "/p/b");

    // a lock with a creation time beats legacy locks without one
    let locks = vec![lock_with("/p/a", 1, None), lock_with("/p/b", 2, Some(1))];
    let best = find_matching_child_lock(&locks, "/p", None, None).unwrap();
    assert_eq!(best.path, "/p/b");
}

#[test]
fn find_matching_child_lock_filters() {
    let locks = vec![lock_with("/p/a", 1, Some(100)), lock_with("/p/b", 2, Some(300))];
    let by_pid = find_matching_child_lock(&locks, "/p", Some(1), None).unwrap();
    assert_eq!(by_pid.pid, 1);
    let by_cwd = find_matching_child_lock(&locks, "/p", None, Some("/p/a")).unwrap();
    assert_eq!(by_cwd.path, "/p/a");
    assert!(find_matching_child_lock(&locks, "/p", Some(9), None).is_none());
}

#[test]
fn running_is_directional() {
    let parent_lock = vec![lock_at("/parent")];
    assert!(is_session_running(&parent_lock, "/parent"));
    assert!(!is_session_running(&parent_lock, "/parent/child"));

    let child_lock = vec![lock_at("/parent/child")];
    assert!(is_session_running(&child_lock, "/parent"));
    assert!(is_session_running(&child_lock, "/parent/child"));
    assert!(!is_session_running(&child_lock, "/sibling"));
}

#[test]
fn running_normalizes_trailing_slashes() {
    let locks = vec![lock_at("/project")];
    assert!(is_session_running(&locks, "/project/"));
    let mut store = StateStore::new_in_memory();
    store.update_at("session", SessionState::Working, "/project", 0);
    let resolved = resolve_state_with_details(&locks, &store, "/project/", 0).unwrap();
    assert_eq!(resolved.session_id.as_deref(), Some("session"));
}

#[test]
fn get_lock_info_prefers_exact_over_child() {
    let locks = vec![lock_at("/parent/child"), lock_at("/parent")];
    let info = get_lock_info(&locks, "/parent").unwrap();
    assert_eq!(info.path, "/parent");

    let info = get_lock_info(&locks, "/parent/child").unwrap();
    assert_eq!(info.path, "/parent/child");

    let child = find_child_lock(&locks, "/parent").unwrap();
    assert_eq!(child.path, "/parent/child");
}

#[test]
fn lock_dir_names_are_digests() {
    let name = lock_dir_name("/project");
    assert_eq!(name.chars().count(), 37);
    assert!(name.ends_with(".lock"));
    assert_ne!(name, "/project.lock");
    // same key, same name; different key, different name
    assert_eq!(lock_dir_name("/project"), lock_dir_name("/project"));
    assert_ne!(lock_dir_name("/project"), lock_dir_name("/project2"));
}

#[test]
fn other_session_locks_counted_by_pid() {
    let locks = vec![session_lock("sess-1", "/p", 10), session_lock("sess-2", "/q", 20)];
    assert!(count_other_session_locks(&locks, "sess-1", 99) > 0);
    assert_eq!(count_other_session_locks(&locks, "sess-1", 10), 0);
    assert_eq!(count_other_session_locks(&locks, "sess-3", 99), 0);
}

#[test]
fn root_path_queries() {
    let locks = vec![lock_at("/a")];
    let mut store = StateStore::new_in_memory();
    store.update_at("root-session", SessionState::Working, "/a", 0);
    let resolved = resolve_state_with_details(&locks, &store, "/", 0).unwrap();
    assert_eq!(resolved.session_id.as_deref(), Some("root-session"));
    assert_eq!(resolved.cwd, "/a");

    let root_lock = vec![lock_at("/")];
    assert!(is_session_running(&root_lock, "/"));
    assert!(!is_session_running(&root_lock, "/a"));
}

#[test]
fn resolve_state_matches_detailed_state() {
    let locks = vec![lock_at("/project")];
    let mut store = StateStore::new_in_memory();
    store.update_at("s1", SessionState::Compacting, "/project", 0);
    let detailed = resolve_state_with_details(&locks, &store, "/project", 0).unwrap();
    assert_eq!(resolve_state(&locks, &store, "/project", 0), Some(detailed.state));
    assert_eq!(resolve_state(&locks, &store, "/project", 0), Some(SessionState::Compacting));
}
