//! Verified core of the Vocoflow dictation app: the settings model and its
//! in-memory store, the local transcript history, the one-shot notices shown
//! in the settings window, the settings bridge and window decisions, and the
//! global hotkey listener's state machine.

pub mod input;
pub mod settings;
pub mod store;
pub mod text;
pub mod history;
pub mod runtime_flash;
pub mod endpoints;
pub mod events;
pub mod window;
pub mod settings_file;
pub mod resources;
