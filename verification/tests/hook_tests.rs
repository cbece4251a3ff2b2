use hud_core::hook::{Action, EndStep, HookEvent, HookInput};
use hud_core::hook::{process_event, session_end_steps, should_spawn_lock_holder,
    tombstone_blocks, extract_file_activity};
use hud_core::types::SessionState;

fn empty_input(event_name: &str) -> HookInput {
    HookInput {
        hook_event_name: Some(event_name.to_string()),
        session_id: Some("test".to_string()),
        cwd: Some("/test".to_string()),
        trigger: None,
        notification_type: None,
        stop_hook_active: None,
        tool_name: None,
        tool_use_id: None,
        tool_input: None,
        tool_response: None,
        source: None,
        reason: None,
        agent_id: None,
        agent_transcript_path: None,
        file_path: None,
    }
}

#[test]
fn test_process_event_session_start() {
    let input = empty_input("SessionStart");
    let event = HookEvent::SessionStart;
    let (action, state, _) = process_event(&event, None, &input);

    assert_eq!(action, Action::Upsert);
    assert_eq!(state, Some(SessionState::Ready));
}

#[test]
fn test_process_event_session_start_skips_working() {
    let input = empty_input("SessionStart");
    let event = HookEvent::SessionStart;
    let (action, state, _) = process_event(&event, Some(SessionState::Working), &input);

    assert_eq!(action, Action::Skip);
    assert_eq!(state, None);
}

#[test]
fn test_process_event_user_prompt_submit() {
    let input = empty_input("UserPromptSubmit");
    let event = HookEvent::UserPromptSubmit;
    let (action, state, _) = process_event(&event, None, &input);

    assert_eq!(action, Action::Upsert);
    assert_eq!(state, Some(SessionState::Working));
}

#[test]
fn test_process_event_stop_hook_active_true() {
    let input = empty_input("Stop");
    let event = HookEvent::Stop { stop_hook_active: true };
    let (action, _, _) = process_event(&event, Some(SessionState::Working), &input);

    assert_eq!(action, Action::Skip);
}

#[test]
fn process_event_tool_use_heartbeats_while_working() {
    let input = empty_input("PreToolUse");
    let event = HookEvent::PreToolUse { tool_name: Some("Bash".to_string()) };
    let (action, state, activity) = process_event(&event, Some(SessionState::Working), &input);
    assert_eq!(action, Action::Heartbeat);
    assert_eq!(state, None);
    assert!(activity.is_none());

    let (action, state, _) = process_event(&event, Some(SessionState::Ready), &input);
    assert_eq!(action, Action::Upsert);
    assert_eq!(state, Some(SessionState::Working));
}

#[test]
fn process_event_post_tool_use_reports_file_activity() {
    let input = empty_input("PostToolUse");
    let event = HookEvent::PostToolUse {
        tool_name: Some("Edit".to_string()),
        file_path: Some("/p/src/main.rs".to_string()),
    };
    let (_, _, activity) = process_event(&event, None, &input);
    assert_eq!(activity, Some(("/p/src/main.rs".to_string(), "Edit".to_string())));

    let event = HookEvent::PostToolUse {
        tool_name: Some("Grep".to_string()),
        file_path: Some("/p/src/main.rs".to_string()),
    };
    let (_, _, activity) = process_event(&event, None, &input);
    assert!(activity.is_none());
}

#[test]
fn process_event_notification_only_idle_prompt() {
    let input = empty_input("Notification");
    let event = HookEvent::Notification { notification_type: Some("idle_prompt".to_string()) };
    let (action, state, _) = process_event(&event, Some(SessionState::Working), &input);
    assert_eq!(action, Action::Upsert);
    assert_eq!(state, Some(SessionState::Ready));

    let event = HookEvent::Notification { notification_type: Some("other".to_string()) };
    let (action, _, _) = process_event(&event, Some(SessionState::Working), &input);
    assert_eq!(action, Action::Skip);
}

#[test]
fn process_event_permission_and_compact_and_end() {
    let input = empty_input("PermissionRequest");
    let (action, state, _) = process_event(&HookEvent::PermissionRequest, None, &input);
    assert_eq!(action, Action::Upsert);
    assert_eq!(state, Some(SessionState::Waiting));

    let (action, state, _) = process_event(&HookEvent::PreCompact, None, &input);
    assert_eq!(action, Action::Upsert);
    assert_eq!(state, Some(SessionState::Compacting));

    let (action, state, _) = process_event(&HookEvent::SessionEnd, None, &input);
    assert_eq!(action, Action::Delete);
    assert_eq!(state, None);
}

#[test]
fn to_event_maps_names() {
    let input = empty_input("SessionStart");
    assert!(matches!(input.to_event(), Some(HookEvent::SessionStart)));

    let input = empty_input("SessionEnd");
    assert!(matches!(input.to_event(), Some(HookEvent::SessionEnd)));

    let mut input = empty_input("Stop");
    input.stop_hook_active = Some(true);
    assert!(matches!(input.to_event(), Some(HookEvent::Stop { stop_hook_active: true })));

    let input = empty_input("SomethingNew");
    assert!(matches!(input.to_event(), Some(HookEvent::Unknown { .. })));

    let mut input = empty_input("SessionStart");
    input.hook_event_name = None;
    assert!(input.to_event().is_none());
}

#[test]
fn resolve_cwd_prefers_input_then_record() {
    let input = empty_input("Stop");
    assert_eq!(input.resolve_cwd(Some("/old")), Some("/test".to_string()));

    let mut input = empty_input("Stop");
    input.cwd = None;
    assert_eq!(input.resolve_cwd(Some("/old")), Some("/old".to_string()));
    assert_eq!(input.resolve_cwd(None), None);
}

#[test]
fn extract_file_activity_filters_tools() {
    let edit = Some("Edit".to_string());
    let path = Some("/f".to_string());
    assert_eq!(
        extract_file_activity(&edit, &path),
        Some(("/f".to_string(), "Edit".to_string()))
    );
    let bash = Some("Bash".to_string());
    assert!(extract_file_activity(&bash, &path).is_none());
    assert!(extract_file_activity(&edit, &None).is_none());
    assert!(extract_file_activity(&None, &path).is_none());
}

#[test]
fn tombstone_blocks_all_but_start_and_end() {
    assert!(tombstone_blocks(&HookEvent::UserPromptSubmit, true));
    assert!(tombstone_blocks(&HookEvent::PreCompact, true));
    assert!(!tombstone_blocks(&HookEvent::SessionStart, true));
    assert!(!tombstone_blocks(&HookEvent::SessionEnd, true));
    assert!(!tombstone_blocks(&HookEvent::UserPromptSubmit, false));
}

#[test]
fn lock_holder_spawns_on_session_establishing_events() {
    assert!(should_spawn_lock_holder(&HookEvent::SessionStart));
    assert!(should_spawn_lock_holder(&HookEvent::UserPromptSubmit));
    assert!(!should_spawn_lock_holder(&HookEvent::SessionEnd));
    assert!(!should_spawn_lock_holder(&HookEvent::PreToolUse { tool_name: None }));
}

#[test]
fn session_end_steps_order_record_before_lock() {
    let steps = session_end_steps(false);
    assert_eq!(
        steps,
        vec![
            EndStep::WriteTombstone,
            EndStep::RemoveRecord,
            EndStep::RemoveActivity,
            EndStep::ReleaseLock,
        ]
    );

    let steps = session_end_steps(true);
    assert_eq!(steps, vec![EndStep::ReleaseLock]);
}
