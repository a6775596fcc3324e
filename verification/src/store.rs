use vstd::prelude::*;

use crate::settings::{
    spec_default_history, spec_default_logging, spec_default_settings,
    spec_default_transcription, AppSettings, AppSettingsView, HistorySettings,
    HotkeySettingsView, LoggingSettings, ParsedHotkey, ParsedHotkeyView, TranscriptionSettings,
    TranscriptionSettingsView, CHORD_TIMEOUT_MAX_MS, CHORD_TIMEOUT_MIN_MS, HISTORY_RETENTION_CAP,
};

verus! {

/// The process-wide settings snapshot. It is empty until `initialize` runs;
/// afterwards it always holds settings.
pub struct SettingsStore {
    slot: Option<AppSettings>,
}

impl View for SettingsStore {
    type V = Option<AppSettingsView>;

    closed spec fn view(&self) -> Option<AppSettingsView> {
        match self.slot {
            Some(s) => Some(s@),
            None => None,
        }
    }
}

/// What `current` reports for a store.
pub open spec fn spec_current(store: Option<AppSettingsView>) -> AppSettingsView {
    match store {
        Some(s) => s,
        None => spec_default_settings(),
    }
}

/// The settings that a load result stands for: the loaded ones, or the defaults.
pub open spec fn spec_loaded_or_default(loaded: Result<AppSettings, String>) -> AppSettingsView {
    match loaded {
        Ok(s) => s@,
        Err(_) => spec_default_settings(),
    }
}

impl SettingsStore {
    /// An empty store, before `initialize`.
    pub fn new() -> (r: Self)
        ensures
            r@ == None::<AppSettingsView>,
    {
        SettingsStore { slot: None }
    }
}

/// Fills an empty store with the settings loaded from disk, or with the
/// defaults when loading failed. A store that already holds settings keeps them.
pub fn initialize(store: &mut SettingsStore, loaded: Result<AppSettings, String>)
    ensures
        final(store)@ == (match old(store)@ {
            Some(s) => Some(s),
            None => Some(spec_loaded_or_default(loaded)),
        }),
{
    if store.slot.is_none() {
        let initial = match loaded {
            Ok(s) => s,
            Err(_) => AppSettings::default(),
        };
        store.slot = Some(initial);
    }
}

/// A copy of the settings in the store (the defaults if it is empty).
pub fn current(store: &SettingsStore) -> (r: AppSettings)
    ensures
        r@ == spec_current(store@),
{
    match &store.slot {
        Some(s) => s.duplicate(),
        None => AppSettings::default(),
    }
}

/// The outcome that every in-memory update promises on a store that holds
/// settings: the store holds `change` applied to its settings, and the result
/// is a copy of them (the snapshot to persist).
pub open spec fn spec_update_outcome(
    before: Option<AppSettingsView>,
    after: Option<AppSettingsView>,
    r: Result<AppSettings, String>,
    change: spec_fn(AppSettingsView) -> AppSettingsView,
) -> bool {
    &&& before is Some
    &&& after == Some(change(before->Some_0))
    &&& r is Ok
    &&& r->Ok_0@ == change(before->Some_0)
}

pub open spec fn spec_with_start_on_login(s: AppSettingsView, start_on_login: bool) -> AppSettingsView {
    AppSettingsView { start_on_login, ..s }
}


/// Records the user's choice of launching at sign-in.
pub fn update_start_on_login(store: &mut SettingsStore, start_on_login: bool) -> (r: Result<AppSettings, String>)
    requires
        old(store)@ is Some,
    ensures
        spec_update_outcome(old(store)@, final(store)@, r, |s| spec_with_start_on_login(s, start_on_login)),
{
    match &mut store.slot {
        Some(s) => {
            s.start_on_login = start_on_login;
            Ok(s.duplicate())
        },
        None => Err("settings store unavailable".to_owned()),
    }
}

pub open spec fn spec_clamp_chord_timeout(t: u64) -> u64 {
    if t < CHORD_TIMEOUT_MIN_MS {
        CHORD_TIMEOUT_MIN_MS
    } else if t > CHORD_TIMEOUT_MAX_MS {
        CHORD_TIMEOUT_MAX_MS
    } else {
        t
    }
}

pub open spec fn spec_with_hotkey(
    s: AppSettingsView,
    binding: Seq<char>,
    parsed: ParsedHotkeyView,
    chord_timeout_ms: Option<u64>,
) -> AppSettingsView {
    AppSettingsView {
        hotkey: HotkeySettingsView {
            binding,
            parsed,
            chord_timeout_ms: match chord_timeout_ms {
                Some(t) => spec_clamp_chord_timeout(t),
                None => s.hotkey.chord_timeout_ms,
            },
        },
        ..s
    }
}

/// Clamps a requested chord timeout into the accepted range.
pub fn clamp_chord_timeout(t: u64) -> (r: u64)
    ensures
        r == spec_clamp_chord_timeout(t),
        CHORD_TIMEOUT_MIN_MS <= r <= CHORD_TIMEOUT_MAX_MS,
{
    if t < CHORD_TIMEOUT_MIN_MS {
        CHORD_TIMEOUT_MIN_MS
    } else if t > CHORD_TIMEOUT_MAX_MS {
        CHORD_TIMEOUT_MAX_MS
    } else {
        t
    }
}

/// Replaces the hotkey binding with `binding`, whose parse is `parsed`; a
/// given chord timeout is clamped into range, an absent one keeps the old
/// value. A failed parse is returned as it is and changes nothing.
pub fn update_hotkey(
    store: &mut SettingsStore,
    binding: String,
    parsed: Result<ParsedHotkey, String>,
    chord_timeout_ms: Option<u64>,
) -> (r: Result<AppSettings, String>)
    requires
        old(store)@ is Some,
    ensures
        parsed is Err ==> final(store)@ == old(store)@ && r is Err && r->Err_0 == parsed->Err_0,
        parsed is Ok ==> spec_update_outcome(
            old(store)@,
            final(store)@,
            r,
            |s| spec_with_hotkey(s, binding@, parsed->Ok_0@, chord_timeout_ms),
        ),
{
    let parsed = match parsed {
        Ok(p) => p,
        Err(e) => return Err(e),
    };
    match &mut store.slot {
        Some(s) => {
            s.hotkey.binding = binding;
            s.hotkey.parsed = parsed;
            if let Some(timeout) = chord_timeout_ms {
                s.hotkey.chord_timeout_ms = clamp_chord_timeout(timeout);
            }
            Ok(s.duplicate())
        },
        None => Err("settings store unavailable".to_owned()),
    }
}

/// Mirrors the system's launch-at-sign-in state into the settings. The flag
/// in the result says whether the settings changed and must be persisted;
/// when they already agree, nothing changes and a copy is returned.
pub fn persist_start_on_login_from_system(store: &mut SettingsStore, start_on_login: bool) -> (r: Result<(AppSettings, bool), String>)
    requires
        old(store)@ is Some,
    ensures
        ({
            let s = old(store)@->Some_0;
            &&& final(store)@ == Some(spec_with_start_on_login(s, start_on_login))
            &&& r is Ok
            &&& r->Ok_0.0@ == spec_with_start_on_login(s, start_on_login)
            &&& r->Ok_0.1 == (s.start_on_login != start_on_login)
        }),
{
    match &mut store.slot {
        Some(s) => {
            if s.start_on_login == start_on_login {
                proof {
                    assert(s@ == spec_with_start_on_login(s@, start_on_login));
                }
                return Ok((s.duplicate(), false));
            }
            s.start_on_login = start_on_login;
            Ok((s.duplicate(), true))
        },
        None => Err("settings store unavailable".to_owned()),
    }
}

pub open spec fn spec_with_logging(s: AppSettingsView, logging: LoggingSettings) -> AppSettingsView {
    AppSettingsView { logging, ..s }
}

/// Replaces the logging settings.
pub fn update_logging(store: &mut SettingsStore, logging: LoggingSettings) -> (r: Result<AppSettings, String>)
    requires
        old(store)@ is Some,
    ensures
        spec_update_outcome(old(store)@, final(store)@, r, |s| spec_with_logging(s, logging)),
{
    match &mut store.slot {
        Some(s) => {
            s.logging = logging;
            Ok(s.duplicate())
        },
        None => Err("settings store unavailable".to_owned()),
    }
}

pub open spec fn spec_with_transcription(s: AppSettingsView, t: TranscriptionSettingsView) -> AppSettingsView {
    AppSettingsView { transcription: t, ..s }
}

/// Replaces the transcription settings.
pub fn update_transcription(store: &mut SettingsStore, transcription: TranscriptionSettings) -> (r: Result<AppSettings, String>)
    requires
        old(store)@ is Some,
    ensures
        spec_update_outcome(old(store)@, final(store)@, r, |s| spec_with_transcription(s, transcription@)),
{
    match &mut store.slot {
        Some(s) => {
            s.transcription = transcription;
            Ok(s.duplicate())
        },
        None => Err("settings store unavailable".to_owned()),
    }
}

pub open spec fn spec_capped_history(h: HistorySettings) -> HistorySettings {
    HistorySettings {
        retention_max_sessions: if h.retention_max_sessions < HISTORY_RETENTION_CAP {
            h.retention_max_sessions
        } else {
            HISTORY_RETENTION_CAP
        },
    }
}

pub open spec fn spec_with_history(s: AppSettingsView, h: HistorySettings) -> AppSettingsView {
    AppSettingsView { history: spec_capped_history(h), ..s }
}

/// Replaces the history settings, capping retention at 200 sessions.
pub fn update_history(store: &mut SettingsStore, history: HistorySettings) -> (r: Result<AppSettings, String>)
    requires
        old(store)@ is Some,
    ensures
        spec_update_outcome(old(store)@, final(store)@, r, |s| spec_with_history(s, history)),
{
    let capped = if history.retention_max_sessions < HISTORY_RETENTION_CAP {
        history.retention_max_sessions
    } else {
        HISTORY_RETENTION_CAP
    };
    match &mut store.slot {
        Some(s) => {
            s.history = HistorySettings { retention_max_sessions: capped };
            Ok(s.duplicate())
        },
        None => Err("settings store unavailable".to_owned()),
    }
}

pub open spec fn spec_reset_general(s: AppSettingsView) -> AppSettingsView {
    AppSettingsView {
        start_on_login: spec_default_settings().start_on_login,
        hotkey: spec_default_settings().hotkey,
        ..s
    }
}

/// Restores the defaults of the General section: launch at sign-in and the hotkey.
pub fn reset_general_defaults(store: &mut SettingsStore) -> (r: Result<AppSettings, String>)
    requires
        old(store)@ is Some,
    ensures
        spec_update_outcome(old(store)@, final(store)@, r, |s| spec_reset_general(s)),
{
    let defaults = AppSettings::default();
    match &mut store.slot {
        Some(s) => {
            s.start_on_login = defaults.start_on_login;
            s.hotkey = defaults.hotkey;
            Ok(s.duplicate())
        },
        None => Err("settings store unavailable".to_owned()),
    }
}

/// Restores the default logging settings.
pub fn reset_logging_default(store: &mut SettingsStore) -> (r: Result<AppSettings, String>)
    requires
        old(store)@ is Some,
    ensures
        spec_update_outcome(old(store)@, final(store)@, r, |s| spec_with_logging(s, spec_default_logging())),
{
    update_logging(store, LoggingSettings::default())
}

/// Restores the default transcription settings.
pub fn reset_transcription_default(store: &mut SettingsStore) -> (r: Result<AppSettings, String>)
    requires
        old(store)@ is Some,
    ensures
        spec_update_outcome(
            old(store)@,
            final(store)@,
            r,
            |s| spec_with_transcription(s, spec_default_transcription()),
        ),
{
    update_transcription(store, TranscriptionSettings::default())
}

/// Restores the default history settings.
pub fn reset_history_default(store: &mut SettingsStore) -> (r: Result<AppSettings, String>)
    requires
        old(store)@ is Some,
    ensures
        spec_update_outcome(old(store)@, final(store)@, r, |s| spec_with_history(s, spec_default_history())),
{
    update_history(store, HistorySettings::default())
}

/// Restores every setting to its default.
pub fn reset_all_defaults(store: &mut SettingsStore) -> (r: Result<AppSettings, String>)
    requires
        old(store)@ is Some,
    ensures
        spec_update_outcome(old(store)@, final(store)@, r, |s| spec_default_settings()),
{
    match &mut store.slot {
        Some(s) => {
            *s = AppSettings::default();
            Ok(AppSettings::default())
        },
        None => Err("settings store unavailable".to_owned()),
    }
}

/// The store after comparing it with freshly loaded settings `next`: a store
/// holding settings takes `next` when they differ, an empty store stays empty.
pub open spec fn spec_refreshed(before: Option<AppSettingsView>, next: AppSettingsView) -> Option<AppSettingsView> {
    match before {
        Some(_) => Some(next),
        None => None,
    }
}

/// Whether a refresh with `next` replaces the settings in the store.
pub open spec fn spec_refresh_changes(before: Option<AppSettingsView>, next: AppSettingsView) -> bool {
    match before {
        Some(s) => s != next,
        None => false,
    }
}

/// Brings the store in line with the settings loaded from disk. A failed load
/// is returned as it is and changes nothing; otherwise the result says whether
/// the in-memory settings changed.
pub fn refresh_from_disk(store: &mut SettingsStore, loaded: Result<AppSettings, String>) -> (r: Result<bool, String>)
    ensures
        loaded is Err ==> final(store)@ == old(store)@ && r is Err && r->Err_0 == loaded->Err_0,
        loaded is Ok ==> {
            &&& final(store)@ == spec_refreshed(old(store)@, loaded->Ok_0@)
            &&& r == Ok::<bool, String>(spec_refresh_changes(old(store)@, loaded->Ok_0@))
        },
{
    let next = match loaded {
        Ok(n) => n,
        Err(e) => return Err(e),
    };
    match &mut store.slot {
        Some(s) => {
            if s.same_as(&next) {
                return Ok(false);
            }
            *s = next;
            Ok(true)
        },
        None => Ok(false),
    }
}

/// Refreshes the store and drops the outcome; a failed load changes nothing.
pub fn refresh_from_disk_best_effort(store: &mut SettingsStore, loaded: Result<AppSettings, String>)
    ensures
        loaded is Err ==> final(store)@ == old(store)@,
        loaded is Ok ==> final(store)@ == spec_refreshed(old(store)@, loaded->Ok_0@),
{
    let _ = refresh_from_disk(store, loaded);
}

/// Finishes an update once its snapshot was written (`written`) and the
/// settings file was read back (`reloaded`): a failed write or read is returned
/// as it is; otherwise the store is refreshed from what was read and a copy of
/// its settings is returned.
pub fn complete_update(
    store: &mut SettingsStore,
    written: Result<(), String>,
    reloaded: Result<AppSettings, String>,
) -> (r: Result<AppSettings, String>)
    ensures
        written is Err ==> final(store)@ == old(store)@ && r is Err && r->Err_0 == written->Err_0,
        written is Ok && reloaded is Err ==> final(store)@ == old(store)@ && r is Err && r->Err_0
            == reloaded->Err_0,
        written is Ok && reloaded is Ok ==> {
            &&& final(store)@ == spec_refreshed(old(store)@, reloaded->Ok_0@)
            &&& r is Ok
            &&& r->Ok_0@ == spec_current(final(store)@)
        },
{
    if let Err(e) = written {
        return Err(e);
    }
    match refresh_from_disk(store, reloaded) {
        Ok(_) => Ok(current(store)),
        Err(e) => Err(e),
    }
}

// ---------------------------------------------------------------------------
// Laws of the store
// ---------------------------------------------------------------------------

/// Read-back: when an update's snapshot is written and read back unchanged,
/// the refresh keeps the store as the update left it, reports no change, and
/// the settings returned to the caller are the snapshot.
pub proof fn law_written_snapshot_reads_back(after_update: Option<AppSettingsView>, snapshot: AppSettingsView)
    requires
        after_update == Some(snapshot),
    ensures
        spec_refreshed(after_update, snapshot) == after_update,
        !spec_refresh_changes(after_update, snapshot),
        spec_current(spec_refreshed(after_update, snapshot)) == snapshot,
{
}

/// A refresh reports a change exactly when the loaded settings differ from the
/// stored ones, and a second refresh with the same settings reports none.
pub proof fn law_refresh_settles(before: AppSettingsView, next: AppSettingsView)
    ensures
        spec_refresh_changes(Some(before), next) == (before != next),
        !spec_refresh_changes(spec_refreshed(Some(before), next), next),
        spec_current(spec_refreshed(Some(before), next)) == next,
{
}

/// Resetting every section one by one (General, Logging, Transcription,
/// History) gives the same settings as resetting everything at once.
pub proof fn law_section_resets_make_full_reset(s: AppSettingsView)
    ensures
        spec_reset_general(
            spec_with_logging(
                spec_with_transcription(
                    spec_with_history(s, spec_default_history()),
                    spec_default_transcription(),
                ),
                spec_default_logging(),
            ),
        ) == spec_default_settings(),
{
}

/// Every section update is idempotent: applying it twice equals applying it once.
pub proof fn law_updates_are_idempotent(
    s: AppSettingsView,
    start_on_login: bool,
    binding: Seq<char>,
    parsed: ParsedHotkeyView,
    chord_timeout_ms: Option<u64>,
    logging: LoggingSettings,
    transcription: TranscriptionSettingsView,
    history: HistorySettings,
)
    ensures
        spec_with_start_on_login(spec_with_start_on_login(s, start_on_login), start_on_login)
            == spec_with_start_on_login(s, start_on_login),
        spec_with_hotkey(spec_with_hotkey(s, binding, parsed, chord_timeout_ms), binding, parsed, chord_timeout_ms)
            == spec_with_hotkey(s, binding, parsed, chord_timeout_ms),
        spec_with_logging(spec_with_logging(s, logging), logging) == spec_with_logging(s, logging),
        spec_with_transcription(spec_with_transcription(s, transcription), transcription)
            == spec_with_transcription(s, transcription),
        spec_with_history(spec_with_history(s, history), history) == spec_with_history(s, history),
        spec_reset_general(spec_reset_general(s)) == spec_reset_general(s),
{
}

/// Retention is never above the cap after a history update, and a value at or
/// below the cap is kept as given.
pub proof fn law_history_retention_capped(s: AppSettingsView, history: HistorySettings)
    ensures
        spec_with_history(s, history).history.retention_max_sessions <= HISTORY_RETENTION_CAP,
        history.retention_max_sessions <= HISTORY_RETENTION_CAP ==> spec_with_history(s, history).history
            == history,
{
}

/// A chord timeout set through a hotkey update always lies in [100, 5000] ms,
/// and one already in range is kept as given.
pub proof fn law_chord_timeout_in_range(s: AppSettingsView, binding: Seq<char>, parsed: ParsedHotkeyView, t: u64)
    ensures
        CHORD_TIMEOUT_MIN_MS <= spec_with_hotkey(s, binding, parsed, Some(t)).hotkey.chord_timeout_ms
            <= CHORD_TIMEOUT_MAX_MS,
        CHORD_TIMEOUT_MIN_MS <= t <= CHORD_TIMEOUT_MAX_MS ==> spec_with_hotkey(s, binding, parsed, Some(t)).hotkey.chord_timeout_ms == t,
{
}

/// Each section update and reset leaves the other sections untouched.
pub proof fn law_updates_touch_one_section(
    s: AppSettingsView,
    start_on_login: bool,
    binding: Seq<char>,
    parsed: ParsedHotkeyView,
    chord_timeout_ms: Option<u64>,
    logging: LoggingSettings,
    transcription: TranscriptionSettingsView,
    history: HistorySettings,
)
    ensures
        ({
            let w = spec_with_start_on_login(s, start_on_login);
            w.start_on_login == start_on_login && w.hotkey == s.hotkey && w.logging == s.logging
                && w.transcription == s.transcription && w.history == s.history
        }),
        ({
            let k = spec_with_hotkey(s, binding, parsed, chord_timeout_ms);
            k.hotkey.binding == binding && k.hotkey.parsed == parsed && k.start_on_login
                == s.start_on_login && k.logging == s.logging && k.transcription == s.transcription
                && k.history == s.history
        }),
        ({
            let g = spec_reset_general(s);
            g.start_on_login == spec_default_settings().start_on_login && g.hotkey
                == spec_default_settings().hotkey && g.logging == s.logging && g.transcription
                == s.transcription && g.history == s.history
        }),
        ({
            let l = spec_with_logging(s, logging);
            l.logging == logging && l.start_on_login == s.start_on_login && l.hotkey == s.hotkey && l.transcription
                == s.transcription && l.history == s.history
        }),
        ({
            let t = spec_with_transcription(s, transcription);
            t.transcription == transcription && t.start_on_login == s.start_on_login && t.hotkey == s.hotkey && t.logging == s.logging
                && t.history == s.history
        }),
        ({
            let h = spec_with_history(s, history);
            h.start_on_login == s.start_on_login && h.hotkey == s.hotkey && h.logging == s.logging
                && h.transcription == s.transcription
        }),
{
}

} // verus!
