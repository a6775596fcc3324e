use vocoflow::endpoints::settings_get_all;
use vocoflow::runtime_flash::FlashMarker;
use vocoflow::endpoints::settings_get_history::{self, history_request_or_default, SettingsGetHistoryRequest};
use vocoflow::endpoints::settings_reset_defaults::{
    self, parse_reset_scope, reset_defaults_for_scope, reset_refreshes_logging, ResetScope,
};
use vocoflow::endpoints::reply::FollowUp;
use vocoflow::endpoints::{
    settings_delete_history_entry, settings_update_history, settings_update_hotkey,
    settings_update_logging, settings_update_start_on_login, settings_update_transcription,
};
use vocoflow::history::{HistoryEntry, HistoryStore};

const NO_FOLLOW_UP: FollowUp = FollowUp {
    emit_settings_changed: false,
    sync_autostart: false,
    apply_logging: false,
    enforce_history_retention: false,
    record_history_changed: false,
};
use vocoflow::events::{
    emit_settings_changed, emit_settings_flash, next_version, queue_settings_event,
    settings_event_script, SettingsEvents,
};
use vocoflow::window::{drain_queued_scripts, ScriptQueue};
use vocoflow::runtime_flash::{
    record_history_changed, record_llm_post_process_error, take_for_settings_flash,
    SettingsFlashPayload,
};
use vocoflow::settings::{AppSettings, LoggingSettings};
use vocoflow::settings_file::needs_backfill;
use vocoflow::store::{current, initialize, update_logging, update_start_on_login, SettingsStore};

#[test]
fn empty_flash_payload_is_not_taken() {
    assert!(take_for_settings_flash(SettingsFlashPayload::default()).is_none());
}

#[test]
fn recorded_notices_are_taken() {
    let mut p = SettingsFlashPayload::default();
    record_history_changed(&mut p, 17);
    assert_eq!(p.history_changed.map(|m| m.occurred_at_unix_ms), Some(17));
    assert!(p.llm_post_process_error.is_none());
    record_llm_post_process_error(&mut p, "timeout".to_string(), 20);
    let e = p.llm_post_process_error.as_ref().unwrap();
    assert_eq!(e.message, "timeout");
    assert_eq!(e.occurred_at_unix_ms, 20);
    assert_eq!(p.history_changed.map(|m| m.occurred_at_unix_ms), Some(17));
    record_llm_post_process_error(&mut p, "again".to_string(), 30);
    let taken = take_for_settings_flash(p).unwrap();
    assert_eq!(taken.llm_post_process_error.unwrap().message, "again");

    let mut only_error = SettingsFlashPayload::default();
    record_llm_post_process_error(&mut only_error, "bad key".to_string(), 1);
    assert!(take_for_settings_flash(only_error).is_some());
}

#[test]
fn event_versions_count_up() {
    let mut ev = SettingsEvents::new();
    assert_eq!(next_version(&mut ev), 1);
    assert_eq!(next_version(&mut ev), 2);
    assert_eq!(emit_settings_flash(&mut ev), 3);
    assert_eq!(ev.version, 3);
}

#[test]
fn settings_snapshot_sent_once() {
    let mut ev = SettingsEvents::new();
    assert_eq!(emit_settings_changed(&mut ev, "{\"a\":1}".to_string()), Some(1));
    assert_eq!(emit_settings_changed(&mut ev, "{\"a\":1}".to_string()), None);
    assert_eq!(ev.version, 1);
    assert_eq!(emit_settings_changed(&mut ev, "{\"a\":2}".to_string()), Some(2));
    assert_eq!(emit_settings_changed(&mut ev, "{\"a\":1}".to_string()), Some(3));
    assert_eq!(ev.last_settings_snapshot, Some("{\"a\":1}".to_string()));
}

#[test]
fn events_queue_one_script_each() {
    let mut q = ScriptQueue::new();
    queue_settings_event(&mut q, "{\"event\":\"settings.flash\",\"version\":1}");
    queue_settings_event(&mut q, "{\"event\":\"settings.flash\",\"version\":2}");
    let scripts = drain_queued_scripts(&mut q);
    assert_eq!(scripts.len(), 2);
    assert_eq!(
        scripts[1],
        "window.dispatchEvent(new CustomEvent('vocoflow:settings-event', { detail: {\"event\":\"settings.flash\",\"version\":2} }));"
    );
}

#[test]
fn event_script_wraps_payload() {
    assert_eq!(
        settings_event_script("{\"event\":\"settings.flash\"}"),
        "window.dispatchEvent(new CustomEvent('vocoflow:settings-event', { detail: {\"event\":\"settings.flash\"} }));"
    );
}

#[test]
fn reset_scopes() {
    assert_eq!(parse_reset_scope("general"), Ok(ResetScope::General));
    assert_eq!(parse_reset_scope("logging"), Ok(ResetScope::Logging));
    assert_eq!(parse_reset_scope("transcription"), Ok(ResetScope::Transcription));
    assert_eq!(parse_reset_scope("all"), Ok(ResetScope::All));
    assert_eq!(parse_reset_scope("history"), Err("unknown reset scope: history".to_string()));
    assert_eq!(parse_reset_scope("ALL"), Err("unknown reset scope: ALL".to_string()));
    assert!(reset_refreshes_logging(ResetScope::Logging));
    assert!(reset_refreshes_logging(ResetScope::All));
    assert!(!reset_refreshes_logging(ResetScope::General));
    assert!(!reset_refreshes_logging(ResetScope::Transcription));
}

#[test]
fn reset_for_scope_dispatches() {
    let mut store = SettingsStore::new();
    initialize(&mut store, Ok(AppSettings::default()));
    update_start_on_login(&mut store, true).unwrap();
    update_logging(&mut store, LoggingSettings { app_log_max_lines: 5, trace_file_limit: 5, enable_debug_logs: true }).unwrap();
    let r = reset_defaults_for_scope(&mut store, "logging").unwrap();
    assert_eq!(r.logging, LoggingSettings::default());
    assert!(r.start_on_login);
    let r = reset_defaults_for_scope(&mut store, "general").unwrap();
    assert!(!r.start_on_login);
    let bad = reset_defaults_for_scope(&mut store, "everything");
    assert_eq!(bad, Err("unknown reset scope: everything".to_string()));
    update_start_on_login(&mut store, true).unwrap();
    assert_eq!(reset_defaults_for_scope(&mut store, "all").unwrap(), AppSettings::default());
    assert_eq!(current(&store), AppSettings::default());
}

#[test]
fn history_request_defaults_to_first_page_of_20() {
    assert_eq!(history_request_or_default(None), SettingsGetHistoryRequest { page: 1, page_size: 20 });
    let d = SettingsGetHistoryRequest { page: 4, page_size: 7 };
    assert_eq!(history_request_or_default(Some(d)), d);
    assert_eq!(SettingsGetHistoryRequest::default(), SettingsGetHistoryRequest { page: 1, page_size: 20 });
}

#[test]
fn backfill_only_when_json_differs() {
    let normalized = "{\"start_on_login\":false,\"logging\":{\"app_log_max_lines\":1000}}";
    assert!(!needs_backfill("{\"logging\":{\"app_log_max_lines\":1000},\"start_on_login\":false}", normalized));
    assert!(needs_backfill("{\"logging\":{\"app_log_max_lines\":1000}}", normalized));
    assert!(!needs_backfill("not json", normalized));
    assert!(needs_backfill("{}", "not json"));
}

#[test]
fn reset_handler_answers() {
    let (r, follow) = settings_reset_defaults::handle("logging", Ok(AppSettings::default()));
    assert_eq!(r.unwrap(), AppSettings::default());
    assert!(follow.emit_settings_changed);
    assert!(follow.apply_logging);
    let (_, follow) = settings_reset_defaults::handle("all", Ok(AppSettings::default()));
    assert!(follow.apply_logging);
    let (_, follow) = settings_reset_defaults::handle("general", Ok(AppSettings::default()));
    assert!(follow.emit_settings_changed);
    assert!(!follow.apply_logging);
    let (r, follow) = settings_reset_defaults::handle("nope", Err("unknown reset scope: nope".to_string()));
    let e = r.unwrap_err();
    assert_eq!(e.status, 500);
    assert_eq!(e.kind, "error.settings_reset_failed");
    assert_eq!(e.error.code, "SETTINGS_RESET_FAILED");
    assert_eq!(e.error.message, "Failed to reset settings defaults: unknown reset scope: nope");
    assert_eq!(e.error.field.as_deref(), Some("scope"));
    assert_eq!(e.error.expected.as_deref(), Some("general|logging|transcription|all"));
    assert_eq!(e.error.received.as_deref(), Some("nope"));
    assert_eq!(follow, NO_FOLLOW_UP);
}

#[test]
fn update_handlers_answer() {
    let (r, f) = settings_update_start_on_login::handle(Ok(AppSettings::default()));
    assert!(r.is_ok());
    assert!(f.emit_settings_changed && f.sync_autostart && !f.apply_logging);
    let (_, f) = settings_update_logging::handle(Ok(AppSettings::default()));
    assert!(f.emit_settings_changed && f.apply_logging && !f.sync_autostart);
    let (_, f) = settings_update_transcription::handle(Ok(AppSettings::default()));
    assert!(f.emit_settings_changed && !f.apply_logging && !f.enforce_history_retention);
    let (_, f) = settings_update_history::handle(Ok(AppSettings::default()));
    assert!(f.emit_settings_changed && f.enforce_history_retention);
    let (_, f) = settings_update_hotkey::handle(Ok(AppSettings::default()));
    assert!(f.emit_settings_changed && !f.sync_autostart);

    let (r, f) = settings_update_logging::handle(Err("write settings failed: full".to_string()));
    let e = r.unwrap_err();
    assert_eq!(e.status, 500);
    assert_eq!(e.kind, "error.settings_update_failed");
    assert_eq!(e.error.code, "SETTINGS_UPDATE_FAILED");
    assert_eq!(e.error.message, "Failed to update settings: write settings failed: full");
    assert_eq!(e.error.field, None);
    assert_eq!(e.error.received.as_deref(), Some("write settings failed: full"));
    assert_eq!(f, NO_FOLLOW_UP);

    let (r, _) = settings_update_hotkey::handle(Err("unknown key".to_string()));
    let e = r.unwrap_err();
    assert_eq!(e.error.message, "Failed to update hotkey settings: unknown key");
    assert_eq!(e.error.field.as_deref(), Some("binding"));
    assert_eq!(e.error.expected.as_deref(), Some("hotkey string like 'Ctrl+`' or 'Ctrl+K, C'"));
    assert_eq!(e.error.received, None);
}

#[test]
fn delete_handler_answers() {
    assert_eq!(settings_delete_history_entry::handle(Ok(true)).0.unwrap(), true);
    assert!(settings_delete_history_entry::handle(Ok(true)).1);
    assert!(!settings_delete_history_entry::handle(Ok(false)).1);
    let (r, notice) = settings_delete_history_entry::handle(Err("write history failed: ro".to_string()));
    let e = r.unwrap_err();
    assert!(!notice);
    assert_eq!(e.kind, "error.history_delete_failed");
    assert_eq!(e.error.code, "HISTORY_DELETE_FAILED");
    assert_eq!(e.error.message, "Failed to delete history entry: write history failed: ro");
}

#[test]
fn history_handler_cleans_then_pages() {
    let mut store = HistoryStore::new();
    for (i, raw) in ["one two", "x", "three four", "five six"].iter().enumerate() {
        store.entries.push(HistoryEntry {
            id: format!("h_{i}"),
            created_at_unix_ms: i as u128,
            audio_file_name: format!("h_{i}.wav"),
            raw_transcript: raw.to_string(),
            processed_transcript: Some(raw.to_uppercase()),
        });
    }
    let (page, removed) = settings_get_history::handle(&mut store, &vec![true, true, true, false], None);
    assert_eq!(removed, vec!["h_1.wav".to_string(), "h_3.wav".to_string()]);
    assert_eq!(page.page, 1);
    assert_eq!(page.page_size, 20);
    assert_eq!(page.total_items, 2);
    assert_eq!(page.items[1].id, "h_2");
    let (page, _) = settings_get_history::handle(
        &mut store,
        &vec![true, true],
        Some(SettingsGetHistoryRequest { page: 2, page_size: 1 }),
    );
    assert_eq!(page.total_pages, 2);
    assert_eq!(page.items[0].id, "h_2");
}

#[test]
fn backfill_when_settings_file_misses_a_section() {
    let old = r#"{
  "logging": {
    "app_log_max_lines": 1000,
    "trace_file_limit": 100,
    "enable_debug_logs": false
  }
}"#;
    let normalized =
        r#"{"logging":{"app_log_max_lines":1000,"trace_file_limit":100,"enable_debug_logs":false},
            "transcription":{"built_in_dictionary":[],"user_dictionary":[],"model_cache_ttl_secs":600,
            "transcript_reformatting_level":"none","llm_api_key":null,"llm_base_url":"u",
            "llm_model_name":"m","llm_custom_prompt":""}}"#;
    assert!(needs_backfill(old, normalized));
    assert!(!needs_backfill(old, "{\"logging\":{\"enable_debug_logs\":false,\"trace_file_limit\":100,\"app_log_max_lines\":1000}}"));
}

#[test]
fn get_all_sends_settings_and_taken_notices() {
    let flash = SettingsFlashPayload {
        llm_post_process_error: None,
        history_changed: Some(FlashMarker { occurred_at_unix_ms: 5 }),
    };
    let (resp, events) = settings_get_all::handle(AppSettings::default(), "/logs".to_string(), Ok(Some(flash)));
    assert_eq!(resp.logs_dir, "/logs");
    assert_eq!(resp.flash.as_ref().and_then(|f| f.history_changed), Some(FlashMarker { occurred_at_unix_ms: 5 }));
    assert!(resp.settings == AppSettings::default());
    assert!(events.emit_settings_changed);
    assert!(events.emit_settings_flash);
}

#[test]
fn get_all_without_notices_sends_settings_only() {
    let (resp, events) = settings_get_all::handle(AppSettings::default(), "d".to_string(), Ok(None));
    assert!(resp.flash.is_none());
    assert!(events.emit_settings_changed);
    assert!(!events.emit_settings_flash);

    let (resp, events) = settings_get_all::handle(AppSettings::default(), "d".to_string(), Err("bad json".to_string()));
    assert!(resp.flash.is_none());
    assert!(events.emit_settings_changed);
    assert!(!events.emit_settings_flash);
}
