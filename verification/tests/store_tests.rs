use hud_core::store::{StateStore, STORE_VERSION};
use hud_core::types::{SessionRecord, SessionState};

fn plain_record(id: &str, state: SessionState, cwd: &str, updated_at: i64) -> SessionRecord {
    SessionRecord {
        session_id: id.to_string(),
        state,
        cwd: cwd.to_string(),
        updated_at,
        state_changed_at: updated_at,
        working_on: None,
        transcript_path: None,
        permission_mode: None,
        project_dir: None,
        last_event: None,
        active_subagent_count: 0,
    }
}

#[test]
fn test_empty_store_has_no_sessions() {
    let store = StateStore::new_in_memory();
    assert!(store.get_by_session_id("abc").is_none());
}

#[test]
fn test_update_creates_session() {
    let mut store = StateStore::new_in_memory();
    store.update("session-1", SessionState::Working, "/project");
    let record = store.get_by_session_id("session-1").unwrap();
    assert_eq!(record.state, SessionState::Working);
    assert_eq!(record.cwd, "/project");
}

#[test]
fn test_update_overwrites_session() {
    let mut store = StateStore::new_in_memory();
    store.update("session-1", SessionState::Working, "/project");
    store.update("session-1", SessionState::Ready, "/project");
    assert_eq!(store.get_by_session_id("session-1").unwrap().state, SessionState::Ready);
}

#[test]
fn test_remove_deletes_session() {
    let mut store = StateStore::new_in_memory();
    store.update("session-1", SessionState::Ready, "/project");
    store.remove("session-1");
    assert!(store.get_by_session_id("session-1").is_none());
}

#[test]
fn test_all_sessions_returns_all() {
    let mut store = StateStore::new_in_memory();
    store.update("s1", SessionState::Working, "/proj1");
    store.update("s2", SessionState::Ready, "/proj2");
    let sessions = store.all_sessions();
    assert_eq!(sessions.len(), 2);
}

#[test]
fn update_keeps_state_changed_at_when_state_unchanged() {
    let mut store = StateStore::new_in_memory();
    store.update_at("s1", SessionState::Working, "/p", 100);
    store.update_at("s1", SessionState::Working, "/p", 200);
    let rec = store.get_by_session_id("s1").unwrap();
    assert_eq!(rec.updated_at, 200);
    assert_eq!(rec.state_changed_at, 100);

    store.update_at("s1", SessionState::Ready, "/p", 300);
    let rec = store.get_by_session_id("s1").unwrap();
    assert_eq!(rec.state_changed_at, 300);
}

#[test]
fn update_carries_metadata_over() {
    let mut store = StateStore::new_in_memory();
    store.update_at("s1", SessionState::Working, "/p", 100);
    store.set_project_dir_for_test("s1", Some("/root-hint".to_string()));
    store.update_at("s1", SessionState::Ready, "/elsewhere", 200);
    let rec = store.get_by_session_id("s1").unwrap();
    assert_eq!(rec.project_dir, Some("/root-hint".to_string()));
    assert_eq!(rec.cwd, "/elsewhere");
}

#[test]
fn from_loaded_rejects_unknown_versions() {
    let records = vec![plain_record("s1", SessionState::Working, "/p", 0)];
    let store = StateStore::from_loaded(2, records);
    assert_eq!(store.all_sessions().len(), 0);

    let records = vec![plain_record("s1", SessionState::Working, "/p", 0)];
    let store = StateStore::from_loaded(STORE_VERSION, records);
    assert_eq!(store.all_sessions().len(), 1);
}

#[test]
fn from_loaded_keeps_last_of_duplicate_ids() {
    let records = vec![
        plain_record("s1", SessionState::Working, "/a", 0),
        plain_record("s1", SessionState::Ready, "/b", 1),
    ];
    let store = StateStore::from_loaded(STORE_VERSION, records);
    assert_eq!(store.all_sessions().len(), 1);
    assert_eq!(store.get_by_session_id("s1").unwrap().cwd, "/b");
}

#[test]
fn staleness_thresholds() {
    let rec = plain_record("s1", SessionState::Working, "/p", 1000);
    assert!(!rec.is_stale_at(1300));
    assert!(rec.is_stale_at(1301));
    assert!(rec.is_fresh_at(1030));
    assert!(!rec.is_fresh_at(1031));
    // a future timestamp is trusted
    assert!(rec.is_fresh_at(900));
}

#[test]
fn reload_preserves_session_contents() {
    let mut store = StateStore::new_in_memory();
    store.update_at("s1", SessionState::Working, "/proj1", 11);
    store.update_at("s2", SessionState::Waiting, "/proj2", 22);
    store.set_project_dir_for_test("s2", Some("/root2".to_string()));

    let records: Vec<SessionRecord> =
        store.all_sessions().iter().map(hud_core::types::record_copy).collect();
    let reloaded = StateStore::from_loaded(STORE_VERSION, records);

    assert_eq!(reloaded.all_sessions().len(), 2);
    let r1 = reloaded.get_by_session_id("s1").unwrap();
    assert_eq!(r1.state, SessionState::Working);
    assert_eq!(r1.cwd, "/proj1");
    assert_eq!(r1.updated_at, 11);
    let r2 = reloaded.get_by_session_id("s2").unwrap();
    assert_eq!(r2.state, SessionState::Waiting);
    assert_eq!(r2.project_dir, Some("/root2".to_string()));
}
