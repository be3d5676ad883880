use capture_core::error::AppError;
use capture_core::services::db::SyncStatus;
use capture_core::services::discovery::{filter_meeting_apps, RunnableApp};
use capture_core::services::storage::Settings;

#[test]
fn statuses_persist_under_their_codes() {
    assert_eq!(SyncStatus::DraftReady.to_string(), "DRAFT_READY");
    assert_eq!(SyncStatus::Uploading.to_string(), "UPLOADING");
    assert_eq!(SyncStatus::RemotePending.to_string(), "REMOTE_PENDING");
    assert_eq!(SyncStatus::ProcessingRemote.to_string(), "PROCESSING_REMOTE");
    assert_eq!(SyncStatus::CompletedSynced.to_string(), "COMPLETED_SYNCED");
    assert_eq!(SyncStatus::Failed.to_string(), "FAILED");
}

#[test]
fn stored_codes_parse_back() {
    let all = [
        SyncStatus::DraftReady,
        SyncStatus::Uploading,
        SyncStatus::RemotePending,
        SyncStatus::ProcessingRemote,
        SyncStatus::CompletedSynced,
        SyncStatus::Failed,
    ];
    for st in all {
        assert_eq!(SyncStatus::from(st.to_string()), st);
    }
}

#[test]
fn remote_job_states_parse_into_statuses() {
    assert_eq!(SyncStatus::from(String::from("uploaded")), SyncStatus::RemotePending);
    assert_eq!(SyncStatus::from(String::from("pending")), SyncStatus::RemotePending);
    assert_eq!(SyncStatus::from(String::from("processing")), SyncStatus::ProcessingRemote);
    assert_eq!(SyncStatus::from(String::from("completed")), SyncStatus::CompletedSynced);
    assert_eq!(SyncStatus::from(String::from("failed")), SyncStatus::Failed);
}

#[test]
fn unrecognized_codes_fall_back_to_draft() {
    assert_eq!(SyncStatus::from(String::from("")), SyncStatus::DraftReady);
    assert_eq!(SyncStatus::from(String::from("Completed")), SyncStatus::DraftReady);
    assert_eq!(SyncStatus::from(String::from("nonsense")), SyncStatus::DraftReady);
}

#[test]
fn settings_substitute_the_default_output_folder() {
    let configured = Settings {
        scriberr_url: String::from("https://example.test"),
        api_key: String::from("k"),
        output_path: String::new(),
        last_sync_timestamp: None,
    };
    let filled = configured.with_default_output(String::from("/home/user/Recordings"));
    assert_eq!(filled.output_path, "/home/user/Recordings");
    assert_eq!(filled.scriberr_url, "https://example.test");

    let explicit = Settings {
        scriberr_url: String::from("https://example.test"),
        api_key: String::from("k"),
        output_path: String::from("/elsewhere"),
        last_sync_timestamp: Some(String::from("2024-01-01T00:00:00Z")),
    };
    let kept = explicit.with_default_output(String::from("/home/user/Recordings"));
    assert_eq!(kept.output_path, "/elsewhere");
    assert_eq!(kept.last_sync_timestamp, Some(String::from("2024-01-01T00:00:00Z")));
}

fn app(id: &str, pid: i32) -> RunnableApp {
    RunnableApp { id: String::from(id), pid, name: String::from(id), icon: Vec::new() }
}

#[test]
fn only_meeting_applications_survive_the_filter() {
    let apps = vec![
        app("com.apple.finder", 1),
        app("us.zoom.xos", 2),
        app("com.tinyspeck.slackmacgap", 3),
        app("org.mozilla.firefox", 4),
        app("com.microsoft.teams", 5),
        app("com.microsoft.teams2", 6),
    ];
    let kept = filter_meeting_apps(apps);
    let pids: Vec<i32> = kept.iter().map(|a| a.pid).collect();
    assert_eq!(pids, vec![2, 3, 5, 6]);
}

#[test]
fn a_list_without_meeting_applications_filters_to_nothing() {
    let kept = filter_meeting_apps(vec![app("com.apple.music", 9)]);
    assert!(kept.is_empty());
}

#[test]
fn bare_messages_become_unexpected_errors() {
    let e = AppError::from(String::from("boom"));
    match &e {
        AppError::Unexpected(m) => assert_eq!(m, "boom"),
        other => panic!("expected an unexpected-error, got {:?}", other),
    }
    assert_eq!(e.message(), "boom");
}
