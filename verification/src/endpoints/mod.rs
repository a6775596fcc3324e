//! The settings window's bridge endpoints, as far as they decide anything.

pub mod settings_delete_history_entry;
pub mod settings_get_all;
pub mod settings_get_history;
pub mod settings_reset_defaults;
pub mod settings_update_history;
pub mod settings_update_hotkey;
pub mod settings_update_logging;
pub mod settings_update_start_on_login;
pub mod settings_update_transcription;
pub mod reply;
