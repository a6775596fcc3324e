use vstd::prelude::*;
use vstd::string::*;

use crate::window::{queue_script_eval, ScriptQueue};

verus! {

broadcast use vstd::string::group_string_axioms;

/// State of the settings-window event stream: the version of the last event
/// sent, and the last settings snapshot sent (to skip repeats).
pub struct SettingsEvents {
    pub version: u64,
    pub last_settings_snapshot: Option<String>,
}

pub struct SettingsEventsView {
    pub version: u64,
    pub last_settings_snapshot: Option<Seq<char>>,
}

impl View for SettingsEvents {
    type V = SettingsEventsView;

    open spec fn view(&self) -> SettingsEventsView {
        SettingsEventsView {
            version: self.version,
            last_settings_snapshot: self.last_settings_snapshot.deep_view(),
        }
    }
}

impl SettingsEvents {
    /// A stream that has sent nothing yet.
    pub fn new() -> (r: Self)
        ensures
            r@.version == 0,
            r@.last_settings_snapshot is None,
    {
        SettingsEvents { version: 0, last_settings_snapshot: None }
    }
}

/// Gives the next event version: one more than the last.
pub fn next_version(events: &mut SettingsEvents) -> (r: u64)
    requires
        old(events).version < u64::MAX,
    ensures
        r == old(events).version + 1,
        final(events)@ == (SettingsEventsView { version: r, ..old(events)@ }),
{
    events.version = events.version + 1;
    events.version
}

/// Gives the version of the `settings.flash` event to queue: notices are
/// always sent, each with the next version.
pub fn emit_settings_flash(events: &mut SettingsEvents) -> (r: u64)
    requires
        old(events).version < u64::MAX,
    ensures
        r == old(events).version + 1,
        final(events)@ == (SettingsEventsView { version: r, ..old(events)@ }),
{
    next_version(events)
}

/// The stream after offering settings `snapshot`, and the version of the
/// event to send (none when the snapshot repeats the last one sent).
pub open spec fn spec_emit_changed(ev: SettingsEventsView, snapshot: Seq<char>) -> (SettingsEventsView, Option<u64>) {
    if ev.last_settings_snapshot == Some(snapshot) {
        (ev, None)
    } else {
        (
            SettingsEventsView {
                version: (ev.version + 1) as u64,
                last_settings_snapshot: Some(snapshot),
            },
            Some((ev.version + 1) as u64),
        )
    }
}

/// Offers a settings snapshot (the JSON of the settings) to the event stream.
/// A snapshot equal to the last one sent is skipped (`None`, nothing changes);
/// any other becomes the last one sent and gets the next event version, which
/// the `settings.changed` event to queue carries.
pub fn emit_settings_changed(events: &mut SettingsEvents, snapshot: String) -> (r: Option<u64>)
    requires
        old(events)@.last_settings_snapshot != Some(snapshot@) ==> old(events).version < u64::MAX,
    ensures
        (final(events)@, r) == spec_emit_changed(old(events)@, snapshot@),
{
    let repeat = match &events.last_settings_snapshot {
        Some(last) => *last == snapshot,
        None => false,
    };
    if repeat {
        return None;
    }
    events.last_settings_snapshot = Some(snapshot);
    Some(next_version(events))
}

/// The first part of the script that delivers an event to the settings page.
pub open spec fn spec_event_script_prefix() -> Seq<char> {
    "window.dispatchEvent(new CustomEvent('vocoflow:settings-event', { detail: "@
}

/// The last part of the script that delivers an event to the settings page.
pub open spec fn spec_event_script_suffix() -> Seq<char> {
    " }));"@
}

/// The script that dispatches the serialized event `serialized` in the
/// settings page.
pub fn settings_event_script(serialized: &str) -> (r: String)
    ensures
        r@ == spec_event_script_prefix() + serialized@ + spec_event_script_suffix(),
{
    let mut script = "window.dispatchEvent(new CustomEvent('vocoflow:settings-event', { detail: ".to_owned();
    script.append(serialized);
    script.append(" }));");
    script
}

/// Queues the script that delivers the serialized event `serialized` (the
/// event's JSON, carrying the version that `emit_settings_changed` or
/// `emit_settings_flash` gave) to the settings page: exactly one script is
/// appended to the queue.
pub fn queue_settings_event(queue: &mut ScriptQueue, serialized: &str)
    ensures
        final(queue).scripts.deep_view() == old(queue).scripts.deep_view().push(
            spec_event_script_prefix() + serialized@ + spec_event_script_suffix(),
        ),
{
    let script = settings_event_script(serialized);
    queue_script_eval(queue, script);
}

/// Settings are sent at most once in a row: offering the same snapshot twice
/// in a row gives one event version and skips the second offer, while a
/// different snapshot right after gets the following version.
pub proof fn law_snapshot_sent_once(ev: SettingsEventsView, snapshot: Seq<char>, other: Seq<char>)
    requires
        other != snapshot,
    ensures
        spec_emit_changed(spec_emit_changed(ev, snapshot).0, snapshot).1 is None,
        spec_emit_changed(spec_emit_changed(ev, snapshot).0, snapshot).0 == spec_emit_changed(ev, snapshot).0,
        ev.last_settings_snapshot != Some(snapshot) ==> spec_emit_changed(ev, snapshot).1 == Some(
            (ev.version + 1) as u64,
        ),
        spec_emit_changed(spec_emit_changed(ev, snapshot).0, other).1 == Some(
            (spec_emit_changed(ev, snapshot).0.version + 1) as u64,
        ),
{
}

} // verus!
