use vocoflow::input::{HotkeyStep, KeyToken, Modifiers, TriggerInput};
use vocoflow::settings::{
    AppSettings, HistorySettings, HotkeySettings, LoggingSettings, ParsedHotkey,
    TranscriptReformattingLevel, TranscriptionSettings, DEFAULT_LLM_BASE_URL,
    DEFAULT_LLM_CUSTOM_PROMPT, DEFAULT_LLM_MODEL_NAME, hotkey_needs_rebuild,
};
use vocoflow::store::{
    clamp_chord_timeout, complete_update, current, initialize, persist_start_on_login_from_system,
    refresh_from_disk, refresh_from_disk_best_effort, reset_all_defaults, reset_general_defaults,
    reset_history_default, reset_logging_default, reset_transcription_default, update_history,
    update_hotkey, update_logging, update_start_on_login, update_transcription, SettingsStore,
};

fn ready_store() -> SettingsStore {
    let mut store = SettingsStore::new();
    initialize(&mut store, Ok(AppSettings::default()));
    store
}

fn ctrl_k_then_c() -> ParsedHotkey {
    ParsedHotkey {
        normalized: "Ctrl+K, C".to_string(),
        sequence: vec![
            HotkeyStep {
                modifiers: Modifiers { ctrl: true, shift: false, alt: false, meta: false },
                trigger: TriggerInput::Key(KeyToken::Char('k')),
            },
            HotkeyStep {
                modifiers: Modifiers::default(),
                trigger: TriggerInput::Key(KeyToken::Char('c')),
            },
        ],
    }
}

#[test]
fn defaults_match_documented_values() {
    let s = AppSettings::default();
    assert!(!s.start_on_login);
    assert_eq!(s.hotkey.binding, "Ctrl+`");
    assert_eq!(s.hotkey.parsed.normalized, "Ctrl+`");
    assert_eq!(s.hotkey.parsed.sequence.len(), 1);
    assert_eq!(s.hotkey.parsed.sequence[0].trigger, TriggerInput::Key(KeyToken::Backquote));
    assert!(s.hotkey.parsed.sequence[0].modifiers.ctrl);
    assert_eq!(s.hotkey.chord_timeout_ms, 1200);
    assert_eq!(s.logging.app_log_max_lines, 1000);
    assert_eq!(s.logging.trace_file_limit, 100);
    assert!(!s.logging.enable_debug_logs);
    assert_eq!(s.history.retention_max_sessions, 20);
    let t = &s.transcription;
    assert!(t.built_in_dictionary.is_empty());
    assert!(t.user_dictionary.is_empty());
    assert_eq!(t.model_cache_ttl_secs, 600);
    assert_eq!(t.transcript_reformatting_level, TranscriptReformattingLevel::Unchanged);
    assert_eq!(t.llm_api_key, None);
    assert_eq!(t.llm_base_url, DEFAULT_LLM_BASE_URL);
    assert_eq!(t.llm_model_name, DEFAULT_LLM_MODEL_NAME);
    assert_eq!(t.llm_custom_prompt, DEFAULT_LLM_CUSTOM_PROMPT);
    assert_eq!(TranscriptReformattingLevel::default(), TranscriptReformattingLevel::Unchanged);
}

#[test]
fn equality_compares_every_field() {
    let a = AppSettings::default();
    let mut b = AppSettings::default();
    assert!(a.same_as(&b));
    assert_eq!(a, b);
    b.transcription.user_dictionary.push("Vocoflow".to_string());
    assert!(!a.same_as(&b));
    assert_ne!(a, b);
    let mut c = AppSettings::default();
    c.transcription.llm_api_key = Some("SECRET-REDACTED".to_string());
    assert_ne!(a, c);
    let mut d = AppSettings::default();
    d.hotkey.parsed.sequence.clear();
    assert!(!a.hotkey.same_as(&d.hotkey));
    assert!(a.same_as(&a.duplicate()));
    assert_eq!(c.duplicate(), c);
}

#[test]
fn empty_store_reports_defaults() {
    let mut store = SettingsStore::new();
    assert_eq!(current(&store), AppSettings::default());
    assert_eq!(refresh_from_disk(&mut store, Ok(AppSettings::default())), Ok(false));
    assert_eq!(current(&store), AppSettings::default());
}

#[test]
fn initialize_uses_loaded_settings_once() {
    let mut loaded = AppSettings::default();
    loaded.start_on_login = true;
    let mut store = SettingsStore::new();
    initialize(&mut store, Ok(loaded));
    assert!(current(&store).start_on_login);
    initialize(&mut store, Ok(AppSettings::default()));
    assert!(current(&store).start_on_login);

    let mut failed = SettingsStore::new();
    initialize(&mut failed, Err("read settings failed: denied".to_string()));
    assert_eq!(current(&failed), AppSettings::default());
}

#[test]
fn start_on_login_update_returns_snapshot() {
    let mut store = ready_store();
    let snap = update_start_on_login(&mut store, true).unwrap();
    assert!(snap.start_on_login);
    assert_eq!(current(&store), snap);
}

#[test]
fn hotkey_update_clamps_timeout() {
    let mut store = ready_store();
    let snap = update_hotkey(&mut store, "Ctrl+K, C".to_string(), Ok(ctrl_k_then_c()), Some(50)).unwrap();
    assert_eq!(snap.hotkey.binding, "Ctrl+K, C");
    assert_eq!(snap.hotkey.parsed.sequence.len(), 2);
    assert_eq!(snap.hotkey.chord_timeout_ms, 100);
    let snap = update_hotkey(&mut store, "Ctrl+K, C".to_string(), Ok(ctrl_k_then_c()), Some(9000)).unwrap();
    assert_eq!(snap.hotkey.chord_timeout_ms, 5000);
    let snap = update_hotkey(&mut store, "Ctrl+K, C".to_string(), Ok(ctrl_k_then_c()), Some(700)).unwrap();
    assert_eq!(snap.hotkey.chord_timeout_ms, 700);
    let snap = update_hotkey(&mut store, "Ctrl+K, C".to_string(), Ok(ctrl_k_then_c()), None).unwrap();
    assert_eq!(snap.hotkey.chord_timeout_ms, 700);
    assert_eq!(clamp_chord_timeout(0), 100);
    assert_eq!(clamp_chord_timeout(5000), 5000);
    assert_eq!(clamp_chord_timeout(u64::MAX), 5000);
}

#[test]
fn hotkey_update_with_bad_binding_changes_nothing() {
    let mut store = ready_store();
    let r = update_hotkey(&mut store, "Ctrl+".to_string(), Err("empty key".to_string()), Some(300));
    assert_eq!(r, Err("empty key".to_string()));
    assert_eq!(current(&store), AppSettings::default());
}

#[test]
fn persist_from_system_writes_only_on_change() {
    let mut store = ready_store();
    let (snap, write) = persist_start_on_login_from_system(&mut store, false).unwrap();
    assert!(!write);
    assert_eq!(snap, AppSettings::default());
    let (snap, write) = persist_start_on_login_from_system(&mut store, true).unwrap();
    assert!(write);
    assert!(snap.start_on_login);
    let (_, write) = persist_start_on_login_from_system(&mut store, true).unwrap();
    assert!(!write);
}

#[test]
fn section_updates_replace_one_section() {
    let mut store = ready_store();
    let logging = LoggingSettings { app_log_max_lines: 10, trace_file_limit: 3, enable_debug_logs: true };
    let snap = update_logging(&mut store, logging).unwrap();
    assert_eq!(snap.logging, logging);
    assert_eq!(snap.hotkey.binding, "Ctrl+`");

    let mut t = TranscriptionSettings::default();
    t.transcript_reformatting_level = TranscriptReformattingLevel::Freeform;
    t.llm_model_name = "local-model".to_string();
    let snap = update_transcription(&mut store, t).unwrap();
    assert_eq!(snap.transcription.transcript_reformatting_level, TranscriptReformattingLevel::Freeform);
    assert_eq!(snap.transcription.llm_model_name, "local-model");
    assert_eq!(snap.logging, logging);
}

#[test]
fn history_update_caps_retention_at_200() {
    let mut store = ready_store();
    let snap = update_history(&mut store, HistorySettings { retention_max_sessions: 500 }).unwrap();
    assert_eq!(snap.history.retention_max_sessions, 200);
    let snap = update_history(&mut store, HistorySettings { retention_max_sessions: 0 }).unwrap();
    assert_eq!(snap.history.retention_max_sessions, 0);
    let snap = update_history(&mut store, HistorySettings { retention_max_sessions: 200 }).unwrap();
    assert_eq!(snap.history.retention_max_sessions, 200);
}

#[test]
fn resets_restore_defaults() {
    let mut store = ready_store();
    update_start_on_login(&mut store, true).unwrap();
    update_hotkey(&mut store, "Ctrl+K, C".to_string(), Ok(ctrl_k_then_c()), Some(300)).unwrap();
    update_logging(&mut store, LoggingSettings { app_log_max_lines: 1, trace_file_limit: 1, enable_debug_logs: true }).unwrap();
    update_history(&mut store, HistorySettings { retention_max_sessions: 5 }).unwrap();

    let snap = reset_general_defaults(&mut store).unwrap();
    assert!(!snap.start_on_login);
    assert_eq!(snap.hotkey.binding, "Ctrl+`");
    assert_eq!(snap.logging.app_log_max_lines, 1);
    assert_eq!(snap.history.retention_max_sessions, 5);

    let snap = reset_logging_default(&mut store).unwrap();
    assert_eq!(snap.logging, LoggingSettings::default());
    let snap = reset_history_default(&mut store).unwrap();
    assert_eq!(snap.history, HistorySettings::default());
    let snap = reset_transcription_default(&mut store).unwrap();
    assert_eq!(snap.transcription, TranscriptionSettings::default());
    assert_eq!(snap, AppSettings::default());

    update_start_on_login(&mut store, true).unwrap();
    assert_eq!(reset_all_defaults(&mut store).unwrap(), AppSettings::default());
    assert_eq!(current(&store), AppSettings::default());
}

#[test]
fn refresh_reports_change_only_when_settings_differ() {
    let mut store = ready_store();
    assert_eq!(refresh_from_disk(&mut store, Ok(AppSettings::default())), Ok(false));
    let mut next = AppSettings::default();
    next.logging.enable_debug_logs = true;
    assert_eq!(refresh_from_disk(&mut store, Ok(next.duplicate())), Ok(true));
    assert_eq!(current(&store), next);
    assert_eq!(refresh_from_disk(&mut store, Ok(next.duplicate())), Ok(false));
    assert_eq!(
        refresh_from_disk(&mut store, Err("parse settings failed: x".to_string())),
        Err("parse settings failed: x".to_string())
    );
    assert_eq!(current(&store), next);
    refresh_from_disk_best_effort(&mut store, Ok(AppSettings::default()));
    assert_eq!(current(&store), AppSettings::default());
    refresh_from_disk_best_effort(&mut store, Err("gone".to_string()));
    assert_eq!(current(&store), AppSettings::default());
}

#[test]
fn written_snapshot_reads_back() {
    let mut store = ready_store();
    let snap = update_start_on_login(&mut store, true).unwrap();
    let result = complete_update(&mut store, Ok(()), Ok(snap.duplicate())).unwrap();
    assert_eq!(result, snap);
    assert_eq!(current(&store), snap);
}

#[test]
fn complete_update_reports_io_failures() {
    let mut store = ready_store();
    let snap = update_start_on_login(&mut store, true).unwrap();
    assert_eq!(
        complete_update(&mut store, Err("write settings failed: full".to_string()), Ok(snap.duplicate())),
        Err("write settings failed: full".to_string())
    );
    assert_eq!(
        complete_update(&mut store, Ok(()), Err("read settings failed: gone".to_string())),
        Err("read settings failed: gone".to_string())
    );
    assert!(current(&store).start_on_login);
    let r = complete_update(&mut store, Ok(()), Ok(AppSettings::default())).unwrap();
    assert_eq!(r, AppSettings::default());
}

#[test]
fn section_resets_equal_full_reset() {
    let mut a = ready_store();
    let mut b = ready_store();
    for store in [&mut a, &mut b] {
        update_start_on_login(store, true).unwrap();
        update_history(store, HistorySettings { retention_max_sessions: 7 }).unwrap();
    }
    reset_history_default(&mut a).unwrap();
    reset_transcription_default(&mut a).unwrap();
    reset_logging_default(&mut a).unwrap();
    reset_general_defaults(&mut a).unwrap();
    reset_all_defaults(&mut b).unwrap();
    assert_eq!(current(&a), current(&b));
}

#[test]
fn updates_are_idempotent() {
    let mut store = ready_store();
    let once = update_history(&mut store, HistorySettings { retention_max_sessions: 900 }).unwrap();
    let twice = update_history(&mut store, HistorySettings { retention_max_sessions: 900 }).unwrap();
    assert_eq!(once, twice);
}

#[test]
fn hotkey_rebuild_needed_on_binding_or_timeout_change() {
    let a = HotkeySettings::default();
    let mut b = HotkeySettings::default();
    assert!(!hotkey_needs_rebuild(&a, &b));
    b.chord_timeout_ms = 900;
    assert!(hotkey_needs_rebuild(&a, &b));
    let mut c = HotkeySettings::default();
    c.parsed = ctrl_k_then_c();
    assert!(hotkey_needs_rebuild(&a, &c));
    let mut d = HotkeySettings::default();
    d.binding = "ctrl+`".to_string();
    assert!(!hotkey_needs_rebuild(&a, &d));
}
