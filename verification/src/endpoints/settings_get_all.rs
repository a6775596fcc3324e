use vstd::prelude::*;

use crate::runtime_flash::SettingsFlashPayload;
use crate::settings::AppSettings;

verus! {

/// The answer of the get-all request: the current settings, the directory
/// holding the logs, and the notices waiting for the settings window, if any.
pub struct SettingsGetAllResponse {
    pub settings: AppSettings,
    pub logs_dir: String,
    pub flash: Option<SettingsFlashPayload>,
}

/// The events that the get-all request sends to the settings page.
#[derive(Debug, Clone, Copy, PartialEq, Eq, Structural)]
pub struct GetAllEvents {
    /// Send the current settings.
    pub emit_settings_changed: bool,
    /// Send the notices that were taken.
    pub emit_settings_flash: bool,
}

/// Answers the get-all request given the current settings, the logs
/// directory, and the outcome of taking the waiting notices: the answer
/// carries the settings, the directory and the notices taken (none when
/// there were none or they could not be read); the current settings are
/// always sent to the page, the notices only when some were taken.
pub fn handle(
    settings: AppSettings,
    logs_dir: String,
    taken: Result<Option<SettingsFlashPayload>, String>,
) -> (r: (SettingsGetAllResponse, GetAllEvents))
    ensures
        r.0.settings@ == settings@,
        r.0.logs_dir@ == logs_dir@,
        taken matches Ok(Some(p)) ==> r.0.flash matches Some(f) && f@ == p@,
        !(taken is Ok && taken->Ok_0 is Some) ==> r.0.flash is None,
        r.1.emit_settings_changed,
        r.1.emit_settings_flash == (taken is Ok && taken->Ok_0 is Some),
{
    let flash = match taken {
        Ok(f) => f,
        Err(_) => None,
    };
    let emit_settings_flash = flash.is_some();
    (
        SettingsGetAllResponse { settings, logs_dir, flash },
        GetAllEvents { emit_settings_changed: true, emit_settings_flash },
    )
}

} // verus!
