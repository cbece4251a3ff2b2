use hud_core::adapter::{AgentState, ClaudeAdapter, ClaudeState};
use hud_core::store::StateStore;
use hud_core::types::SessionState;

#[test]
fn test_state_mapping_ready() {
    assert_eq!(ClaudeAdapter::map_state(ClaudeState::Ready), AgentState::Ready);
}

#[test]
fn test_state_mapping_working() {
    assert_eq!(ClaudeAdapter::map_state(ClaudeState::Working), AgentState::Working);
}

#[test]
fn test_state_mapping_compacting_is_working_with_detail() {
    assert_eq!(ClaudeAdapter::map_state(ClaudeState::Compacting), AgentState::Working);
    assert_eq!(
        ClaudeAdapter::state_detail(ClaudeState::Compacting),
        Some("compacting context".to_string())
    );
}

#[test]
fn test_state_mapping_blocked_is_waiting_with_detail() {
    assert_eq!(ClaudeAdapter::map_state(ClaudeState::Blocked), AgentState::Waiting);
    assert_eq!(
        ClaudeAdapter::state_detail(ClaudeState::Blocked),
        Some("waiting for permission".to_string())
    );
}

#[test]
fn test_id_and_display_name() {
    let adapter = ClaudeAdapter::new();
    assert_eq!(adapter.id(), "agent");
    assert_eq!(adapter.display_name(), "Coding Agent");
}

#[test]
fn test_adapter_id_is_lowercase_no_spaces() {
    let adapter = ClaudeAdapter::with_claude_dir("/tmp/agent-fixtures".to_string());
    let id = adapter.id();
    assert!(id.chars().all(|c| c.is_ascii_lowercase()));
    assert!(!id.contains(' '));
}

#[test]
fn test_all_sessions_returns_sessions() {
    let mut store = StateStore::new_in_memory();
    store.update_at("session-1", SessionState::Working, "/project1", 10);
    store.update_at("session-2", SessionState::Ready, "/project2", 10);

    let adapter = ClaudeAdapter::with_claude_dir("/tmp/agent-data".to_string());
    let sessions = adapter.all_sessions_in(&store);

    assert_eq!(sessions.len(), 2);
}

#[test]
fn all_sessions_map_states_and_identity() {
    let mut store = StateStore::new_in_memory();
    store.update_at("s1", SessionState::Compacting, "/p", 0);
    let adapter = ClaudeAdapter::with_claude_dir("/tmp/agent-data".to_string());
    let sessions = adapter.all_sessions_in(&store);
    assert_eq!(sessions.len(), 1);
    assert_eq!(sessions[0].state, AgentState::Working);
    assert_eq!(sessions[0].session_id, Some("s1".to_string()));
    assert_eq!(sessions[0].cwd, "/p");
    assert_eq!(sessions[0].detail, Some("compacting context".to_string()));
}

#[test]
fn all_sessions_render_update_instant() {
    let mut store = StateStore::new_in_memory();
    store.update_at("s1", SessionState::Ready, "/p", 0);
    let adapter = ClaudeAdapter::with_claude_dir("/tmp/agent-data".to_string());
    let sessions = adapter.all_sessions_in(&store);
    assert_eq!(sessions[0].updated_at, Some("1970-01-01T00:00:00+00:00".to_string()));
}

#[test]
fn adapter_paths_hang_off_data_dir() {
    let adapter = ClaudeAdapter::with_claude_dir("/home/u/.agent".to_string());
    assert_eq!(
        adapter.state_file_path(),
        Some("/home/u/.agent/hud-session-states-v2.json".to_string())
    );
    assert_eq!(adapter.lock_dir_path(), Some("/home/u/.agent/sessions".to_string()));
}

#[test]
fn detect_session_none_without_lock_or_fresh_record() {
    let adapter = ClaudeAdapter::with_claude_dir("/tmp/agent-data".to_string());
    let locks: Vec<hud_core::types::LockEntry> = Vec::new();
    let store = StateStore::new_in_memory();
    assert!(adapter.detect_session_in(&locks, &store, "/some/project", 0).is_none());
}

#[test]
fn detect_session_maps_resolved_state() {
    let adapter = ClaudeAdapter::with_claude_dir("/tmp/agent-data".to_string());
    let locks = vec![hud_core::types::LockEntry {
        dir_name: hud_core::locks::lock_dir_name("/project"),
        info: hud_core::types::LockInfo {
            pid: 4321,
            path: "/project".to_string(),
            proc_started: None,
            created: None,
        },
    }];
    let mut store = StateStore::new_in_memory();
    store.update_at("test-session", SessionState::Waiting, "/project", 0);

    let session = adapter.detect_session_in(&locks, &store, "/project", 0).unwrap();
    assert_eq!(session.state, AgentState::Waiting);
    assert_eq!(session.session_id, Some("test-session".to_string()));
    assert_eq!(session.cwd, "/project");
    assert_eq!(session.detail, Some("waiting for permission".to_string()));
    assert_eq!(session.working_on, None);
}
