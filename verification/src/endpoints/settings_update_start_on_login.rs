use vstd::prelude::*;

use crate::endpoints::reply::{
    no_follow_up, settings_update_failed, spec_settings_update_failed, spec_settings_answer,
    ErrorReply, FollowUp,
};
use crate::settings::AppSettings;

verus! {

/// What a successful start-on-login update calls for: send the new settings to the page and sync the system autostart entry.
pub open spec fn spec_follow_up() -> FollowUp {
    FollowUp {
        emit_settings_changed: true,
        sync_autostart: true,
        apply_logging: false,
        enforce_history_retention: false,
        record_history_changed: false,
    }
}

/// Answers the start-on-login update request given the outcome of the persisted update:
/// the new settings and the follow-up above, or the status-500
/// "error.settings_update_failed" answer carrying the error (and no follow-up).
pub fn handle(result: Result<AppSettings, String>) -> (r: (Result<AppSettings, ErrorReply>, FollowUp))
    ensures
        spec_settings_answer(result, r, |e: Seq<char>| spec_settings_update_failed(e), spec_follow_up()),
{
    match result {
        Ok(s) => (
            Ok(s),
            FollowUp {
                emit_settings_changed: true,
                sync_autostart: true,
                apply_logging: false,
                enforce_history_retention: false,
                record_history_changed: false,
            },
        ),
        Err(e) => (Err(settings_update_failed(e)), no_follow_up()),
    }
}

} // verus!
