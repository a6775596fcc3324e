use vstd::prelude::*;
use vstd::string::*;

use crate::settings::AppSettings;

verus! {

broadcast use vstd::string::group_string_axioms;

/// The error part of a failed bridge answer.
#[derive(Debug, Clone)]
pub struct EndpointError {
    pub code: String,
    pub message: String,
    pub field: Option<String>,
    pub expected: Option<String>,
    pub received: Option<String>,
}

/// A failed bridge answer: its HTTP status, its kind, and the error.
#[derive(Debug, Clone)]
pub struct ErrorReply {
    pub status: u16,
    pub kind: String,
    pub error: EndpointError,
}

pub struct EndpointErrorView {
    pub code: Seq<char>,
    pub message: Seq<char>,
    pub field: Option<Seq<char>>,
    pub expected: Option<Seq<char>>,
    pub received: Option<Seq<char>>,
}

pub struct ErrorReplyView {
    pub status: u16,
    pub kind: Seq<char>,
    pub error: EndpointErrorView,
}

impl View for ErrorReply {
    type V = ErrorReplyView;

    open spec fn view(&self) -> ErrorReplyView {
        ErrorReplyView {
            status: self.status,
            kind: self.kind@,
            error: EndpointErrorView {
                code: self.error.code@,
                message: self.error.message@,
                field: self.error.field.deep_view(),
                expected: self.error.expected.deep_view(),
                received: self.error.received.deep_view(),
            },
        }
    }
}

/// What the app does after a settings endpoint answered.
#[derive(Debug, Clone, Copy, PartialEq, Eq, Structural)]
pub struct FollowUp {
    /// Send the new settings to the settings page.
    pub emit_settings_changed: bool,
    /// Bring the system's launch-at-sign-in entry in line with the settings.
    pub sync_autostart: bool,
    /// Re-apply the logging settings to the running logger.
    pub apply_logging: bool,
    /// Apply the history retention limit to the stored history.
    pub enforce_history_retention: bool,
    /// Record a history-changed notice for the settings page.
    pub record_history_changed: bool,
}

/// No follow-up at all.
pub open spec fn spec_no_follow_up() -> FollowUp {
    FollowUp {
        emit_settings_changed: false,
        sync_autostart: false,
        apply_logging: false,
        enforce_history_retention: false,
        record_history_changed: false,
    }
}

/// A status-500 answer of `kind` whose error has `code`, `message`, and the
/// optional `field`, `expected` and `received` details.
pub open spec fn spec_error_reply(
    kind: Seq<char>,
    code: Seq<char>,
    message: Seq<char>,
    field: Option<Seq<char>>,
    expected: Option<Seq<char>>,
    received: Option<Seq<char>>,
) -> ErrorReplyView {
    ErrorReplyView {
        status: 500,
        kind,
        error: EndpointErrorView { code, message, field, expected, received },
    }
}

fn concat(a: &str, b: &str) -> (r: String)
    ensures
        r@ == a@ + b@,
{
    let mut s = a.to_owned();
    s.append(b);
    s
}

/// The answer when a settings update failed with `err`.
pub open spec fn spec_settings_update_failed(err: Seq<char>) -> ErrorReplyView {
    spec_error_reply(
        "error.settings_update_failed"@,
        "SETTINGS_UPDATE_FAILED"@,
        "Failed to update settings: "@ + err,
        None,
        None,
        Some(err),
    )
}

/// The answer when a settings update failed with `err`.
pub fn settings_update_failed(err: String) -> (r: ErrorReply)
    ensures
        r@ == spec_settings_update_failed(err@),
{
    let message = concat("Failed to update settings: ", err.as_str());
    ErrorReply {
        status: 500,
        kind: "error.settings_update_failed".to_owned(),
        error: EndpointError {
            code: "SETTINGS_UPDATE_FAILED".to_owned(),
            message,
            field: None,
            expected: None,
            received: Some(err),
        },
    }
}

/// The answer when a hotkey update failed with `err`.
pub open spec fn spec_hotkey_update_failed(err: Seq<char>) -> ErrorReplyView {
    spec_error_reply(
        "error.settings_update_failed"@,
        "SETTINGS_UPDATE_FAILED"@,
        "Failed to update hotkey settings: "@ + err,
        Some("binding"@),
        Some("hotkey string like 'Ctrl+`' or 'Ctrl+K, C'"@),
        None,
    )
}

/// The answer when a hotkey update failed with `err`.
pub fn hotkey_update_failed(err: String) -> (r: ErrorReply)
    ensures
        r@ == spec_hotkey_update_failed(err@),
{
    let message = concat("Failed to update hotkey settings: ", err.as_str());
    ErrorReply {
        status: 500,
        kind: "error.settings_update_failed".to_owned(),
        error: EndpointError {
            code: "SETTINGS_UPDATE_FAILED".to_owned(),
            message,
            field: Some("binding".to_owned()),
            expected: Some("hotkey string like 'Ctrl+`' or 'Ctrl+K, C'".to_owned()),
            received: None,
        },
    }
}

/// The answer when deleting a history entry failed with `err`.
pub open spec fn spec_history_delete_failed(err: Seq<char>) -> ErrorReplyView {
    spec_error_reply(
        "error.history_delete_failed"@,
        "HISTORY_DELETE_FAILED"@,
        "Failed to delete history entry: "@ + err,
        None,
        None,
        Some(err),
    )
}

/// The answer when deleting a history entry failed with `err`.
pub fn history_delete_failed(err: String) -> (r: ErrorReply)
    ensures
        r@ == spec_history_delete_failed(err@),
{
    let message = concat("Failed to delete history entry: ", err.as_str());
    ErrorReply {
        status: 500,
        kind: "error.history_delete_failed".to_owned(),
        error: EndpointError {
            code: "HISTORY_DELETE_FAILED".to_owned(),
            message,
            field: None,
            expected: None,
            received: Some(err),
        },
    }
}

/// The answer when resetting `scope` failed with `err`.
pub open spec fn spec_settings_reset_failed(err: Seq<char>, scope: Seq<char>) -> ErrorReplyView {
    spec_error_reply(
        "error.settings_reset_failed"@,
        "SETTINGS_RESET_FAILED"@,
        "Failed to reset settings defaults: "@ + err,
        Some("scope"@),
        Some("general|logging|transcription|all"@),
        Some(scope),
    )
}

/// The answer when resetting `scope` failed with `err`.
pub fn settings_reset_failed(err: String, scope: &str) -> (r: ErrorReply)
    ensures
        r@ == spec_settings_reset_failed(err@, scope@),
{
    let message = concat("Failed to reset settings defaults: ", err.as_str());
    ErrorReply {
        status: 500,
        kind: "error.settings_reset_failed".to_owned(),
        error: EndpointError {
            code: "SETTINGS_RESET_FAILED".to_owned(),
            message,
            field: Some("scope".to_owned()),
            expected: Some("general|logging|transcription|all".to_owned()),
            received: Some(scope.to_owned()),
        },
    }
}

/// The answer of a settings endpoint given the outcome of its (persisted)
/// update, `answer_error` being that endpoint's error answer, and the
/// follow-up `on_success` that a success calls for.
pub open spec fn spec_settings_answer(
    result: Result<AppSettings, String>,
    r: (Result<AppSettings, ErrorReply>, FollowUp),
    answer_error: spec_fn(Seq<char>) -> ErrorReplyView,
    on_success: FollowUp,
) -> bool {
    match result {
        Ok(s) => r.0 is Ok && r.0->Ok_0@ == s@ && r.1 == on_success,
        Err(e) => r.0 is Err && r.0->Err_0@ == answer_error(e@) && r.1 == spec_no_follow_up(),
    }
}

/// No follow-up at all.
pub fn no_follow_up() -> (r: FollowUp)
    ensures
        r == spec_no_follow_up(),
{
    FollowUp {
        emit_settings_changed: false,
        sync_autostart: false,
        apply_logging: false,
        enforce_history_retention: false,
        record_history_changed: false,
    }
}

} // verus!
