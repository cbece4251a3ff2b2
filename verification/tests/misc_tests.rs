use hud_core::activity::{resolve_activity_path, ActivityLog};
use hud_core::dashboard::{add_pinned_project, default_terminal_app, format_relative_time,
    is_pinned, remove_pinned_project, u64_to_string, HudConfig};
use hud_core::activity::{FileActivityEntry, SessionActivity};
use hud_core::shell::{classify_parent_app, str_contains, ShellCwdState, ShellEntry, ShellSlot};
use hud_core::types::{lock_is_alive, created_newer_than};

#[test]
fn format_relative_time_buckets() {
    assert_eq!(format_relative_time(0), "just now");
    assert_eq!(format_relative_time(59), "just now");
    assert_eq!(format_relative_time(60), "1 minute ago");
    assert_eq!(format_relative_time(300), "5 minutes ago");
    assert_eq!(format_relative_time(3600), "1 hour ago");
    assert_eq!(format_relative_time(7200), "2 hours ago");
    assert_eq!(format_relative_time(86400), "yesterday");
    assert_eq!(format_relative_time(3 * 86400), "3 days ago");
    assert_eq!(format_relative_time(604800), "1 week ago");
    assert_eq!(format_relative_time(2 * 604800), "2 weeks ago");
}

#[test]
fn u64_rendering() {
    assert_eq!(u64_to_string(0), "0");
    assert_eq!(u64_to_string(7), "7");
    assert_eq!(u64_to_string(42), "42");
    assert_eq!(u64_to_string(1234567890), "1234567890");
}

#[test]
fn terminal_app_default() {
    assert_eq!(default_terminal_app(), "Ghostty");
}

#[test]
fn pinning_adds_once_and_removes_all() {
    let mut config = HudConfig { pinned_projects: Vec::new(), terminal_app: default_terminal_app() };
    add_pinned_project(&mut config, "/a");
    add_pinned_project(&mut config, "/b");
    add_pinned_project(&mut config, "/a");
    assert_eq!(config.pinned_projects, vec!["/a".to_string(), "/b".to_string()]);
    assert!(is_pinned(&config, "/a"));
    assert!(!is_pinned(&config, "/c"));

    remove_pinned_project(&mut config, "/a");
    assert_eq!(config.pinned_projects, vec!["/b".to_string()]);
    remove_pinned_project(&mut config, "/c");
    assert_eq!(config.pinned_projects, vec!["/b".to_string()]);
    assert_eq!(config.terminal_app, "Ghostty");
}

#[test]
fn substring_search() {
    assert!(str_contains("Cursor Helper (Renderer)", "Cursor Helper"));
    assert!(str_contains("abc", ""));
    assert!(!str_contains("ab", "abc"));
    assert!(str_contains("xxabcyy", "abc"));
    assert!(!str_contains("xxabyy", "abc"));
}

#[test]
fn parent_app_classification() {
    assert_eq!(classify_parent_app("Cursor Helper (Renderer)"), Some("cursor".to_string()));
    assert_eq!(classify_parent_app("Code - Insiders"), Some("vscode-insiders".to_string()));
    assert_eq!(classify_parent_app("iTerm2"), Some("iterm2".to_string()));
    assert_eq!(classify_parent_app("tmux: server"), Some("tmux".to_string()));
    assert_eq!(classify_parent_app("zsh"), None);
}

#[test]
fn shell_state_upsert_reports_cwd_changes() {
    let mut state = ShellCwdState::new();
    let changed = state.upsert_shell(12345, "/test", "/dev/ttys000", Some("iterm2".to_string()), 0);
    assert!(changed);
    let changed = state.upsert_shell(12345, "/test", "/dev/ttys000", None, 5);
    assert!(!changed);
    let changed = state.upsert_shell(12345, "/elsewhere", "/dev/ttys000", None, 9);
    assert!(changed);
    assert_eq!(state.slots().len(), 1);
    assert_eq!(state.slots()[0].entry.cwd, "/elsewhere");
}

#[test]
fn activity_path_resolution() {
    assert_eq!(resolve_activity_path("/p", "/abs/file.rs"), "/abs/file.rs");
    assert_eq!(resolve_activity_path("/p", "rel/file.rs"), "/p/rel/file.rs");
}

#[test]
fn activity_log_prepends_and_truncates() {
    let mut log = ActivityLog::new();
    for i in 0..105u64 {
        log.record_file_activity("s1", "/p", &format!("/p/f{}.rs", i), "Edit", i as i64);
    }
    let rows = log.rows();
    assert_eq!(rows.len(), 1);
    assert_eq!(rows[0].files.len(), 100);
    // newest first
    assert_eq!(rows[0].files[0].file_path, "/p/f104.rs");
    assert_eq!(rows[0].files[99].file_path, "/p/f5.rs");

    log.record_file_activity("s2", "/q", "x.rs", "Write", 1);
    assert_eq!(log.rows().len(), 2);
    log.remove_session("s1");
    assert_eq!(log.rows().len(), 1);
    assert_eq!(log.rows()[0].session_id, "s2");
}

#[test]
fn lock_liveness_rules() {
    // directory present, pid answers, no recorded start time
    assert!(lock_is_alive(true, true, &None, &None));
    // recorded start must match what the system reports
    assert!(lock_is_alive(true, true, &Some(7), &Some(7)));
    assert!(!lock_is_alive(true, true, &Some(7), &Some(8)));
    assert!(!lock_is_alive(true, true, &Some(7), &None));
    // dead pid or missing directory never counts
    assert!(!lock_is_alive(false, true, &None, &None));
    assert!(!lock_is_alive(true, false, &None, &None));
}

#[test]
fn created_order_treats_missing_as_oldest() {
    assert!(created_newer_than(&Some(2), &Some(1)));
    assert!(!created_newer_than(&Some(1), &Some(2)));
    assert!(!created_newer_than(&Some(1), &Some(1)));
    assert!(created_newer_than(&Some(0), &None));
    assert!(!created_newer_than(&None, &Some(0)));
    assert!(!created_newer_than(&None, &None));
}

#[test]
fn activity_rebuild_keeps_parsed_rows() {
    let rows = vec![
        SessionActivity {
            session_id: "s1".to_string(),
            cwd: "/p".to_string(),
            files: vec![FileActivityEntry {
                file_path: "/p/a.rs".to_string(),
                tool: "Edit".to_string(),
                timestamp: 7,
            }],
        },
        SessionActivity { session_id: "s2".to_string(), cwd: "/q".to_string(), files: vec![] },
        // a repeated id is dropped in favor of the earlier row
        SessionActivity { session_id: "s1".to_string(), cwd: "/other".to_string(), files: vec![] },
    ];
    let log = ActivityLog::from_rows(rows);
    let kept = log.rows();
    assert_eq!(kept.len(), 2);
    assert_eq!(kept[0].session_id, "s1");
    assert_eq!(kept[0].cwd, "/p");
    assert_eq!(kept[0].files.len(), 1);
    assert_eq!(kept[0].files[0].file_path, "/p/a.rs");
    assert_eq!(kept[0].files[0].tool, "Edit");
    assert_eq!(kept[0].files[0].timestamp, 7);
    assert_eq!(kept[1].session_id, "s2");
}

#[test]
fn shell_rebuild_keeps_parsed_slots() {
    let slots = vec![
        ShellSlot {
            pid: 1,
            entry: ShellEntry {
                cwd: "/a".to_string(),
                tty: "/dev/ttys000".to_string(),
                parent_app: None,
                updated_at: 3,
            },
        },
        ShellSlot {
            pid: 2,
            entry: ShellEntry {
                cwd: "/b".to_string(),
                tty: "/dev/ttys001".to_string(),
                parent_app: Some("tmux".to_string()),
                updated_at: 4,
            },
        },
        // a repeated pid is dropped in favor of the earlier slot
        ShellSlot {
            pid: 1,
            entry: ShellEntry {
                cwd: "/late".to_string(),
                tty: "/dev/ttys002".to_string(),
                parent_app: None,
                updated_at: 5,
            },
        },
    ];
    let state = ShellCwdState::from_slots(1, slots);
    assert_eq!(state.version, 1);
    let kept = state.slots();
    assert_eq!(kept.len(), 2);
    assert_eq!(kept[0].pid, 1);
    assert_eq!(kept[0].entry.cwd, "/a");
    assert_eq!(kept[1].pid, 2);
    assert_eq!(kept[1].entry.parent_app, Some("tmux".to_string()));
}
