use vstd::prelude::*;
use vstd::string::*;

use crate::endpoints::reply::{
    no_follow_up, settings_reset_failed, spec_settings_answer, spec_settings_reset_failed,
    ErrorReply, FollowUp,
};
use crate::settings::{
    AppSettings, spec_default_logging, spec_default_settings, spec_default_transcription, AppSettingsView,
};
use crate::store::{
    spec_reset_general, spec_update_outcome, spec_with_logging, spec_with_transcription,
    reset_all_defaults, reset_general_defaults, reset_logging_default, reset_transcription_default,
    SettingsStore,
};

verus! {

broadcast use vstd::string::group_string_axioms;

/// The sections that the settings window can reset to their defaults.
#[derive(Debug, Clone, Copy, PartialEq, Eq, Structural)]
pub enum ResetScope {
    General,
    Logging,
    Transcription,
    All,
}

/// The scope that a reset request names, if it names one.
pub open spec fn spec_reset_scope(scope: Seq<char>) -> Option<ResetScope> {
    if scope == "general"@ {
        Some(ResetScope::General)
    } else if scope == "logging"@ {
        Some(ResetScope::Logging)
    } else if scope == "transcription"@ {
        Some(ResetScope::Transcription)
    } else if scope == "all"@ {
        Some(ResetScope::All)
    } else {
        None
    }
}

/// The name by which the settings window asks for each scope.
pub open spec fn spec_scope_name(scope: ResetScope) -> Seq<char> {
    match scope {
        ResetScope::General => "general"@,
        ResetScope::Logging => "logging"@,
        ResetScope::Transcription => "transcription"@,
        ResetScope::All => "all"@,
    }
}

/// Each scope is asked for by its own name, and by no other text.
pub proof fn law_scope_names_one_to_one(scope: ResetScope, text: Seq<char>)
    ensures
        spec_reset_scope(spec_scope_name(scope)) == Some(scope),
        spec_reset_scope(text) matches Some(sc) ==> text == spec_scope_name(sc),
{
    reveal_strlit("general");
    reveal_strlit("logging");
    reveal_strlit("transcription");
    reveal_strlit("all");
    assert("logging"@ != "general"@) by {
        assert("logging"@[0] != "general"@[0]);
    }
    assert("transcription"@.len() != "general"@.len() && "transcription"@.len() != "logging"@.len());
    assert("all"@.len() != "general"@.len() && "all"@.len() != "logging"@.len()
        && "all"@.len() != "transcription"@.len());
}

/// The error for a scope that names no section.
pub open spec fn spec_unknown_scope_message(scope: Seq<char>) -> Seq<char> {
    "unknown reset scope: "@ + scope
}

/// Reads the scope of a reset request.
pub fn parse_reset_scope(scope: &str) -> (r: Result<ResetScope, String>)
    ensures
        spec_reset_scope(scope@) matches Some(s) ==> r == Ok::<ResetScope, String>(s),
        spec_reset_scope(scope@) is None ==> r is Err && r->Err_0@ == spec_unknown_scope_message(scope@),
{
    let owned = scope.to_owned();
    if owned == "general".to_owned() {
        Ok(ResetScope::General)
    } else if owned == "logging".to_owned() {
        Ok(ResetScope::Logging)
    } else if owned == "transcription".to_owned() {
        Ok(ResetScope::Transcription)
    } else if owned == "all".to_owned() {
        Ok(ResetScope::All)
    } else {
        let mut message = "unknown reset scope: ".to_owned();
        message.append(scope);
        Err(message)
    }
}

/// Whether a reset of `scope` must re-apply the runtime logging settings.
pub fn reset_refreshes_logging(scope: ResetScope) -> (r: bool)
    ensures
        r == (scope == ResetScope::Logging || scope == ResetScope::All),
{
    match scope {
        ResetScope::Logging | ResetScope::All => true,
        _ => false,
    }
}

/// The change that resetting `scope` makes to the settings.
pub open spec fn spec_reset_change(scope: ResetScope, s: AppSettingsView) -> AppSettingsView {
    match scope {
        ResetScope::General => spec_reset_general(s),
        ResetScope::Logging => spec_with_logging(s, spec_default_logging()),
        ResetScope::Transcription => spec_with_transcription(s, spec_default_transcription()),
        ResetScope::All => spec_default_settings(),
    }
}

/// Resetting a scope restores exactly that part of the settings to its
/// defaults and keeps the rest: "general" launch at sign-in and the hotkey,
/// "logging" the logging settings, "transcription" the transcription
/// settings, and "all" everything.
pub proof fn law_reset_restores_only_its_scope(s: AppSettingsView)
    ensures
        ({
            let g = spec_reset_change(ResetScope::General, s);
            &&& g.start_on_login == spec_default_settings().start_on_login
            &&& g.hotkey == spec_default_settings().hotkey
            &&& g.logging == s.logging && g.transcription == s.transcription && g.history == s.history
        }),
        ({
            let l = spec_reset_change(ResetScope::Logging, s);
            &&& l.logging == spec_default_settings().logging
            &&& l.start_on_login == s.start_on_login && l.hotkey == s.hotkey
            &&& l.transcription == s.transcription && l.history == s.history
        }),
        ({
            let t = spec_reset_change(ResetScope::Transcription, s);
            &&& t.transcription == spec_default_settings().transcription
            &&& t.start_on_login == s.start_on_login && t.hotkey == s.hotkey
            &&& t.logging == s.logging && t.history == s.history
        }),
        spec_reset_change(ResetScope::All, s) == spec_default_settings(),
{
}

/// Resets the section that a reset request names: "general", "logging",
/// "transcription" or "all". Any other scope is refused with an error and
/// changes nothing.
pub fn reset_defaults_for_scope(store: &mut SettingsStore, scope: &str) -> (r: Result<AppSettings, String>)
    requires
        old(store)@ is Some,
    ensures
        spec_reset_scope(scope@) is None ==> final(store)@ == old(store)@ && r is Err && r->Err_0@
            == spec_unknown_scope_message(scope@),
        spec_reset_scope(scope@) matches Some(sc) ==> spec_update_outcome(
            old(store)@,
            final(store)@,
            r,
            |s| spec_reset_change(sc, s),
        ),
{
    match parse_reset_scope(scope) {
        Ok(ResetScope::General) => reset_general_defaults(store),
        Ok(ResetScope::Logging) => reset_logging_default(store),
        Ok(ResetScope::Transcription) => reset_transcription_default(store),
        Ok(ResetScope::All) => reset_all_defaults(store),
        Err(e) => Err(e),
    }
}

/// What a successful reset of `scope` calls for: send the new settings to
/// the page, and re-apply the logging settings when the scope is "logging"
/// or "all".
pub open spec fn spec_reset_follow_up(scope: Seq<char>) -> FollowUp {
    FollowUp {
        emit_settings_changed: true,
        sync_autostart: false,
        apply_logging: spec_reset_scope(scope) == Some(ResetScope::Logging) || spec_reset_scope(scope)
            == Some(ResetScope::All),
        enforce_history_retention: false,
        record_history_changed: false,
    }
}

/// Answers a reset request for `scope` given the outcome of the persisted
/// reset (`reset_defaults_for_scope`, then writing and reading back): the new
/// settings and the follow-up above, or the status-500
/// "error.settings_reset_failed" answer naming the scope (and no follow-up).
pub fn handle(scope: &str, result: Result<AppSettings, String>) -> (r: (Result<AppSettings, ErrorReply>, FollowUp))
    ensures
        spec_settings_answer(
            result,
            r,
            |e: Seq<char>| spec_settings_reset_failed(e, scope@),
            spec_reset_follow_up(scope@),
        ),
{
    match result {
        Ok(s) => {
            let apply_logging = match parse_reset_scope(scope) {
                Ok(sc) => reset_refreshes_logging(sc),
                Err(_) => false,
            };
            (
                Ok(s),
                FollowUp {
                    emit_settings_changed: true,
                    sync_autostart: false,
                    apply_logging,
                    enforce_history_retention: false,
                    record_history_changed: false,
                },
            )
        },
        Err(e) => (Err(settings_reset_failed(e, scope)), no_follow_up()),
    }
}

} // verus!
