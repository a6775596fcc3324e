use vstd::prelude::*;

verus! {

/// An error message to show once in the settings window, with its time.
#[derive(Debug, Clone)]
pub struct FlashMessage {
    pub message: String,
    pub occurred_at_unix_ms: u128,
}

/// A marker that something happened, with its time.
#[derive(Debug, Clone, Copy, PartialEq, Eq, Structural)]
pub struct FlashMarker {
    pub occurred_at_unix_ms: u128,
}

/// Notices waiting to be shown once in the settings window.
#[derive(Debug, Clone)]
pub struct SettingsFlashPayload {
    pub llm_post_process_error: Option<FlashMessage>,
    pub history_changed: Option<FlashMarker>,
}

pub struct FlashMessageView {
    pub message: Seq<char>,
    pub occurred_at_unix_ms: u128,
}

pub struct SettingsFlashPayloadView {
    pub llm_post_process_error: Option<FlashMessageView>,
    pub history_changed: Option<FlashMarker>,
}

impl View for FlashMessage {
    type V = FlashMessageView;

    open spec fn view(&self) -> FlashMessageView {
        FlashMessageView { message: self.message@, occurred_at_unix_ms: self.occurred_at_unix_ms }
    }
}

impl View for SettingsFlashPayload {
    type V = SettingsFlashPayloadView;

    open spec fn view(&self) -> SettingsFlashPayloadView {
        SettingsFlashPayloadView {
            llm_post_process_error: match self.llm_post_process_error {
                Some(m) => Some(m@),
                None => None,
            },
            history_changed: self.history_changed,
        }
    }
}

impl Default for SettingsFlashPayload {
    fn default() -> (r: Self)
        ensures
            r@.llm_post_process_error is None,
            r@.history_changed is None,
    {
        SettingsFlashPayload { llm_post_process_error: None, history_changed: None }
    }
}

/// The payload after recording an LLM failure `message` at `t`.
pub open spec fn spec_with_llm_error(p: SettingsFlashPayloadView, message: Seq<char>, t: u128) -> SettingsFlashPayloadView {
    SettingsFlashPayloadView {
        llm_post_process_error: Some(FlashMessageView { message, occurred_at_unix_ms: t }),
        ..p
    }
}

/// The payload after recording a history change at `t`.
pub open spec fn spec_with_history_changed(p: SettingsFlashPayloadView, t: u128) -> SettingsFlashPayloadView {
    SettingsFlashPayloadView { history_changed: Some(FlashMarker { occurred_at_unix_ms: t }), ..p }
}

/// Records that LLM post-processing failed with `message` at `now_unix_ms`,
/// replacing an earlier such notice and keeping the others.
pub fn record_llm_post_process_error(payload: &mut SettingsFlashPayload, message: String, now_unix_ms: u128)
    ensures
        final(payload)@ == spec_with_llm_error(old(payload)@, message@, now_unix_ms),
{
    payload.llm_post_process_error = Some(FlashMessage { message, occurred_at_unix_ms: now_unix_ms });
}

/// Records that the history changed at `now_unix_ms`, replacing an earlier
/// such notice and keeping the others.
pub fn record_history_changed(payload: &mut SettingsFlashPayload, now_unix_ms: u128)
    ensures
        final(payload)@ == spec_with_history_changed(old(payload)@, now_unix_ms),
{
    payload.history_changed = Some(FlashMarker { occurred_at_unix_ms: now_unix_ms });
}

/// Whether a payload carries any notice.
pub open spec fn spec_has_notice(p: SettingsFlashPayloadView) -> bool {
    p.llm_post_process_error is Some || p.history_changed is Some
}

/// What a read of the stored notices hands to the settings window: the
/// payload when it carries a notice, nothing when it is empty.
pub fn take_for_settings_flash(parsed: SettingsFlashPayload) -> (r: Option<SettingsFlashPayload>)
    ensures
        r is None <==> !spec_has_notice(parsed@),
        r matches Some(p) ==> p@ == parsed@,
{
    if parsed.llm_post_process_error.is_none() && parsed.history_changed.is_none() {
        None
    } else {
        Some(parsed)
    }
}

/// A recorded notice is never lost: whatever the payload held before, after
/// recording a notice the next read hands the payload over, carrying it.
pub proof fn law_recorded_notice_is_taken(p: SettingsFlashPayloadView, message: Seq<char>, t: u128)
    ensures
        spec_has_notice(spec_with_llm_error(p, message, t)),
        spec_with_llm_error(p, message, t).llm_post_process_error == Some(
            FlashMessageView { message, occurred_at_unix_ms: t },
        ),
        spec_has_notice(spec_with_history_changed(p, t)),
        spec_with_history_changed(p, t).history_changed == Some(FlashMarker { occurred_at_unix_ms: t }),
{
}

} // verus!
