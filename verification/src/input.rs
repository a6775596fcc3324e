use vstd::prelude::*;

use crate::text::{eq_ignore_ascii_case, spec_eq_ignore_ascii_case, spec_trim, trim};

verus! {

/// Modifier keys held down while a trigger arrives.
#[derive(Debug, Clone, Copy, PartialEq, Eq, Structural, Default)]
pub struct Modifiers {
    pub ctrl: bool,
    pub shift: bool,
    pub alt: bool,
    pub meta: bool,
}

/// A keyboard key that can end a hotkey step.
#[derive(Debug, Clone, Copy, PartialEq, Eq, Structural)]
pub enum KeyToken {
    Backquote,
    Space,
    Tab,
    Enter,
    Escape,
    Function(u8),
    Char(char),
}

/// A mouse button that can end a hotkey step.
#[derive(Debug, Clone, Copy, PartialEq, Eq, Structural)]
pub enum MouseButtonToken {
    Left,
    Right,
    Middle,
    Button4,
    Button5,
}

/// The key or button that completes one step of a hotkey.
#[derive(Debug, Clone, Copy, PartialEq, Eq, Structural)]
pub enum TriggerInput {
    Key(KeyToken),
    Mouse(MouseButtonToken),
}

/// One step of a (possibly chorded) hotkey: the modifiers and the trigger.
#[derive(Debug, Clone, Copy, PartialEq, Eq, Structural)]
pub struct HotkeyStep {
    pub modifiers: Modifiers,
    pub trigger: TriggerInput,
}

/// A key reported by the global input listener, as far as the hotkey logic
/// tells keys apart.
#[derive(Debug, Clone, Copy, PartialEq, Eq, Structural)]
pub enum InputKey {
    BackQuote,
    Space,
    Tab,
    Return,
    Escape,
    /// A function key F1..F12, by number.
    Function(u8),
    /// A letter key A..Z, by its lower-case letter.
    Letter(char),
    ControlLeft,
    ControlRight,
    ShiftLeft,
    ShiftRight,
    Alt,
    AltGr,
    MetaLeft,
    MetaRight,
    /// Any other key.
    Other,
}

/// A mouse button reported by the global input listener.
#[derive(Debug, Clone, Copy, PartialEq, Eq, Structural)]
pub enum InputButton {
    Left,
    Right,
    Middle,
    /// A button known only by its number.
    Unknown(u8),
}

/// The trigger that a key can act as, if any.
pub open spec fn spec_key_trigger(key: InputKey) -> Option<TriggerInput> {
    match key {
        InputKey::BackQuote => Some(TriggerInput::Key(KeyToken::Backquote)),
        InputKey::Space => Some(TriggerInput::Key(KeyToken::Space)),
        InputKey::Tab => Some(TriggerInput::Key(KeyToken::Tab)),
        InputKey::Return => Some(TriggerInput::Key(KeyToken::Enter)),
        InputKey::Escape => Some(TriggerInput::Key(KeyToken::Escape)),
        InputKey::Function(n) => Some(TriggerInput::Key(KeyToken::Function(n))),
        InputKey::Letter(c) => Some(TriggerInput::Key(KeyToken::Char(c))),
        _ => None,
    }
}

/// The trigger that a key can act as: the backquote, space, tab, return and
/// escape keys, the function keys and the letters; modifiers and other keys
/// trigger nothing.
pub fn map_key_trigger(key: InputKey) -> (r: Option<TriggerInput>)
    ensures
        r == spec_key_trigger(key),
{
    match key {
        InputKey::BackQuote => Some(TriggerInput::Key(KeyToken::Backquote)),
        InputKey::Space => Some(TriggerInput::Key(KeyToken::Space)),
        InputKey::Tab => Some(TriggerInput::Key(KeyToken::Tab)),
        InputKey::Return => Some(TriggerInput::Key(KeyToken::Enter)),
        InputKey::Escape => Some(TriggerInput::Key(KeyToken::Escape)),
        InputKey::Function(n) => Some(TriggerInput::Key(KeyToken::Function(n))),
        InputKey::Letter(c) => Some(TriggerInput::Key(KeyToken::Char(c))),
        _ => None,
    }
}

/// The trigger that a mouse button can act as, if any.
pub open spec fn spec_mouse_trigger(button: InputButton) -> Option<TriggerInput> {
    match button {
        InputButton::Left => Some(TriggerInput::Mouse(MouseButtonToken::Left)),
        InputButton::Right => Some(TriggerInput::Mouse(MouseButtonToken::Right)),
        InputButton::Middle => Some(TriggerInput::Mouse(MouseButtonToken::Middle)),
        InputButton::Unknown(4) => Some(TriggerInput::Mouse(MouseButtonToken::Button4)),
        InputButton::Unknown(5) => Some(TriggerInput::Mouse(MouseButtonToken::Button5)),
        _ => None,
    }
}

/// The trigger that a mouse button can act as: left, right, middle, and the
/// side buttons 4 and 5.
pub fn map_mouse_trigger(button: InputButton) -> (r: Option<TriggerInput>)
    ensures
        r == spec_mouse_trigger(button),
{
    match button {
        InputButton::Left => Some(TriggerInput::Mouse(MouseButtonToken::Left)),
        InputButton::Right => Some(TriggerInput::Mouse(MouseButtonToken::Right)),
        InputButton::Middle => Some(TriggerInput::Mouse(MouseButtonToken::Middle)),
        InputButton::Unknown(4) => Some(TriggerInput::Mouse(MouseButtonToken::Button4)),
        InputButton::Unknown(5) => Some(TriggerInput::Mouse(MouseButtonToken::Button5)),
        _ => None,
    }
}

/// The modifier state after `key` went down (`pressed`) or up.
pub open spec fn spec_modifiers_after(m: Modifiers, key: InputKey, pressed: bool) -> Modifiers {
    match key {
        InputKey::ControlLeft | InputKey::ControlRight => Modifiers { ctrl: pressed, ..m },
        InputKey::ShiftLeft | InputKey::ShiftRight => Modifiers { shift: pressed, ..m },
        InputKey::Alt | InputKey::AltGr => Modifiers { alt: pressed, ..m },
        InputKey::MetaLeft | InputKey::MetaRight => Modifiers { meta: pressed, ..m },
        _ => m,
    }
}

/// Tracks the modifier keys: a control, shift, alt or meta key sets its
/// modifier while down; other keys change nothing.
pub fn update_modifier_state(modifiers: &mut Modifiers, key: InputKey, pressed: bool)
    ensures
        *final(modifiers) == spec_modifiers_after(*old(modifiers), key, pressed),
{
    match key {
        InputKey::ControlLeft | InputKey::ControlRight => modifiers.ctrl = pressed,
        InputKey::ShiftLeft | InputKey::ShiftRight => modifiers.shift = pressed,
        InputKey::Alt | InputKey::AltGr => modifiers.alt = pressed,
        InputKey::MetaLeft | InputKey::MetaRight => modifiers.meta = pressed,
        _ => {},
    }
}

/// An event from the global input listener.
#[derive(Debug, Clone, Copy, PartialEq, Eq, Structural)]
pub enum InputEvent {
    KeyPress(InputKey),
    KeyRelease(InputKey),
    ButtonPress(InputButton),
    ButtonRelease(InputButton),
}

/// State of the global hotkey listener: whether the hotkey fired and its key
/// or button is still held, and the modifiers held down.
#[derive(Debug, Clone, Copy, PartialEq, Eq, Structural)]
pub struct HotkeyListener {
    pub hotkey_was_pressed: bool,
    pub modifiers: Modifiers,
}

impl HotkeyListener {
    /// A listener with nothing held.
    pub fn new() -> (r: Self)
        ensures
            !r.hotkey_was_pressed,
            r.modifiers == (Modifiers { ctrl: false, shift: false, alt: false, meta: false }),
    {
        HotkeyListener {
            hotkey_was_pressed: false,
            modifiers: Modifiers { ctrl: false, shift: false, alt: false, meta: false },
        }
    }
}

/// The listener after `ev`, and the trigger (if any) to hand to the hotkey matcher.
pub open spec fn spec_on_input(l: HotkeyListener, ev: InputEvent) -> (HotkeyListener, Option<TriggerInput>) {
    match ev {
        InputEvent::KeyPress(k) => {
            let l2 = HotkeyListener { modifiers: spec_modifiers_after(l.modifiers, k, true), ..l };
            (l2, if !l.hotkey_was_pressed { spec_key_trigger(k) } else { None })
        },
        InputEvent::KeyRelease(k) => {
            let m = spec_modifiers_after(l.modifiers, k, false);
            (
                HotkeyListener {
                    modifiers: m,
                    hotkey_was_pressed: if spec_key_trigger(k) is Some { false } else { l.hotkey_was_pressed },
                },
                None,
            )
        },
        InputEvent::ButtonPress(b) => (l, if !l.hotkey_was_pressed { spec_mouse_trigger(b) } else { None }),
        InputEvent::ButtonRelease(b) => (
            HotkeyListener {
                hotkey_was_pressed: if spec_mouse_trigger(b) is Some { false } else { l.hotkey_was_pressed },
                ..l
            },
            None,
        ),
    }
}

/// Handles one input event: tracks modifiers, re-arms the hotkey when a
/// trigger key or button is released, and on a press (while the hotkey is
/// armed) returns the trigger to hand to the hotkey matcher.
pub fn on_input_event(listener: &mut HotkeyListener, ev: InputEvent) -> (r: Option<TriggerInput>)
    ensures
        (*final(listener), r) == spec_on_input(*old(listener), ev),
{
    match ev {
        InputEvent::KeyPress(k) => {
            update_modifier_state(&mut listener.modifiers, k, true);
            if listener.hotkey_was_pressed {
                None
            } else {
                map_key_trigger(k)
            }
        },
        InputEvent::KeyRelease(k) => {
            update_modifier_state(&mut listener.modifiers, k, false);
            if map_key_trigger(k).is_some() {
                listener.hotkey_was_pressed = false;
            }
            None
        },
        InputEvent::ButtonPress(b) => {
            if listener.hotkey_was_pressed {
                None
            } else {
                map_mouse_trigger(b)
            }
        },
        InputEvent::ButtonRelease(b) => {
            if map_mouse_trigger(b).is_some() {
                listener.hotkey_was_pressed = false;
            }
            None
        },
    }
}

/// What the app does when the hotkey matcher answered.
#[derive(Debug, Clone, Copy, PartialEq, Eq, Structural)]
pub enum HotkeyAction {
    /// The hotkey did not fire.
    Ignore,
    /// The hotkey fired while the speech model is not ready: wake the UI only.
    WakeOnly,
    /// The hotkey fired while recording: wake the UI and stop recording.
    StopRecording,
    /// The hotkey fired while idle: wake the UI and start recording.
    StartRecording,
}

/// The action for the matcher's answer `fired`, given whether the speech model
/// is ready and whether a recording is running.
pub open spec fn spec_hotkey_action(fired: bool, model_ready: bool, recording: bool) -> HotkeyAction {
    if !fired {
        HotkeyAction::Ignore
    } else if !model_ready {
        HotkeyAction::WakeOnly
    } else if recording {
        HotkeyAction::StopRecording
    } else {
        HotkeyAction::StartRecording
    }
}

/// Acts on the hotkey matcher's answer: when the hotkey fired, it stays
/// pressed until its trigger is released, and recording is toggled if the
/// speech model is ready.
pub fn on_matcher_result(listener: &mut HotkeyListener, fired: bool, model_ready: bool, recording: bool) -> (r: HotkeyAction)
    ensures
        r == spec_hotkey_action(fired, model_ready, recording),
        final(listener).modifiers == old(listener).modifiers,
        final(listener).hotkey_was_pressed == (old(listener).hotkey_was_pressed || fired),
{
    if !fired {
        return HotkeyAction::Ignore;
    }
    listener.hotkey_was_pressed = true;
    if !model_ready {
        HotkeyAction::WakeOnly
    } else if recording {
        HotkeyAction::StopRecording
    } else {
        HotkeyAction::StartRecording
    }
}

/// Holding the hotkey does not repeat it: once it fired, no press reaches the
/// matcher until a trigger key or button is released, and such a release
/// re-arms it.
pub proof fn law_hotkey_fires_once_per_hold(l: HotkeyListener, ev: InputEvent)
    requires
        l.hotkey_was_pressed,
    ensures
        spec_on_input(l, ev).1 is None,
        (ev matches InputEvent::KeyPress(_) || ev matches InputEvent::ButtonPress(_)) ==> spec_on_input(l, ev).0.hotkey_was_pressed,
        (ev matches InputEvent::KeyRelease(k) && spec_key_trigger(k) is Some) ==> !spec_on_input(l, ev).0.hotkey_was_pressed,
        (ev matches InputEvent::ButtonRelease(b) && spec_mouse_trigger(b) is Some) ==> !spec_on_input(l, ev).0.hotkey_was_pressed,
{
}

/// The keys that can complete a hotkey step: backquote, space, tab, return,
/// escape, the function keys and the letter keys; modifiers and other keys
/// cannot.
pub open spec fn spec_is_trigger_key(key: InputKey) -> bool {
    match key {
        InputKey::BackQuote | InputKey::Space | InputKey::Tab | InputKey::Return | InputKey::Escape => true,
        InputKey::Function(_) | InputKey::Letter(_) => true,
        _ => false,
    }
}

/// Every trigger key, and only those, acts as a key trigger, and no two keys
/// act as the same trigger: each key of a hotkey is told apart from every other.
pub proof fn law_trigger_keys_map_one_to_one(k1: InputKey, k2: InputKey)
    ensures
        spec_is_trigger_key(k1) <==> spec_key_trigger(k1) is Some,
        spec_key_trigger(k1) matches Some(t) ==> t is Key,
        spec_key_trigger(k1) is Some && spec_key_trigger(k1) == spec_key_trigger(k2) ==> k1 == k2,
        k1 matches InputKey::Function(n) ==> spec_key_trigger(k1) == Some(TriggerInput::Key(KeyToken::Function(n))),
        k1 matches InputKey::Letter(c) ==> spec_key_trigger(k1) == Some(TriggerInput::Key(KeyToken::Char(c))),
        k1 == InputKey::Space ==> spec_key_trigger(k1) == Some(TriggerInput::Key(KeyToken::Space)),
        k1 == InputKey::Tab ==> spec_key_trigger(k1) == Some(TriggerInput::Key(KeyToken::Tab)),
        k1 == InputKey::Return ==> spec_key_trigger(k1) == Some(TriggerInput::Key(KeyToken::Enter)),
        k1 == InputKey::Escape ==> spec_key_trigger(k1) == Some(TriggerInput::Key(KeyToken::Escape)),
        k1 == InputKey::BackQuote ==> spec_key_trigger(k1) == Some(TriggerInput::Key(KeyToken::Backquote)),
{
}

/// While the hotkey is armed, pressing a trigger key hands its trigger to the
/// matcher, and releasing it leaves the hotkey armed; while it is held, the
/// release of a trigger key re-arms it.
pub proof fn law_trigger_key_press_reaches_matcher(l: HotkeyListener, k: InputKey)
    requires
        spec_is_trigger_key(k),
    ensures
        !l.hotkey_was_pressed ==> spec_on_input(l, InputEvent::KeyPress(k)).1 == spec_key_trigger(k)
            && spec_on_input(l, InputEvent::KeyPress(k)).1 is Some,
        !spec_on_input(l, InputEvent::KeyRelease(k)).0.hotkey_was_pressed,
{
}

/// A modifier key is held exactly between its press and its release.
pub proof fn law_modifier_press_release(m: Modifiers, key: InputKey)
    ensures
        (key == InputKey::ControlLeft || key == InputKey::ControlRight) ==> spec_modifiers_after(m, key, true).ctrl
            && !spec_modifiers_after(spec_modifiers_after(m, key, true), key, false).ctrl,
        spec_key_trigger(key) is Some ==> spec_modifiers_after(m, key, true) == m,
{
}

/// Whether the value of `DICTATION_DISABLE_HOTKEY_LISTENER` turns the global
/// hotkey listener off: once trimmed, it is `1`, `true` or `yes` up to ASCII
/// case. An unset variable leaves the listener on.
pub open spec fn spec_listener_disabled(value: Option<Seq<char>>) -> bool {
    match value {
        Some(v) => {
            let t = spec_trim(v);
            spec_eq_ignore_ascii_case(t, "1"@) || spec_eq_ignore_ascii_case(t, "true"@)
                || spec_eq_ignore_ascii_case(t, "yes"@)
        },
        None => false,
    }
}

/// Whether the value of `DICTATION_DISABLE_HOTKEY_LISTENER` (none when it is
/// unset or not Unicode) turns the global hotkey listener off.
pub fn hotkey_listener_disabled(value: Option<&str>) -> (r: bool)
    ensures
        r == spec_listener_disabled(match value {
            Some(v) => Some(v@),
            None => None,
        }),
{
    match value {
        Some(v) => {
            let t = trim(v);
            eq_ignore_ascii_case(t.as_str(), "1") || eq_ignore_ascii_case(t.as_str(), "true")
                || eq_ignore_ascii_case(t.as_str(), "yes")
        },
        None => false,
    }
}

} // verus!
