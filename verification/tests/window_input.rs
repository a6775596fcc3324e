use vocoflow::input::{
    map_key_trigger, map_mouse_trigger, on_input_event, on_matcher_result,
    update_modifier_state, HotkeyAction, HotkeyListener, InputButton, InputEvent, InputKey,
    KeyToken, Modifiers, MouseButtonToken, TriggerInput,
};
use vocoflow::input::hotkey_listener_disabled;
use vocoflow::text::{eq_ignore_ascii_case, strip_prefix, trim, trim_leading_slashes};
use vocoflow::window::{
    content_type_for_extension, drain_queued_scripts, is_settings_flash_event,
    mark_settings_window_ui_ready, missing_resource, queue_script_eval, route_protocol_request,
    should_run_as_settings_process, show_window_when_ready, FlashWatcher, MissingResource,
    ProtocolRoute, RequestMethod, ScriptQueue, WindowState,
};

fn resource(route: ProtocolRoute) -> Option<String> {
    match route {
        ProtocolRoute::Resource(r) => Some(r),
        _ => None,
    }
}

#[test]
fn protocol_routing() {
    assert!(matches!(route_protocol_request(RequestMethod::Options, "ipc"), ProtocolRoute::Preflight));
    assert!(matches!(route_protocol_request(RequestMethod::Other, "ipc"), ProtocolRoute::Bridge));
    assert!(matches!(route_protocol_request(RequestMethod::Get, "ipc"), ProtocolRoute::Bridge));
    assert!(matches!(route_protocol_request(RequestMethod::Other, "settings/app.js"), ProtocolRoute::MethodNotAllowed));
    assert_eq!(resource(route_protocol_request(RequestMethod::Get, "")), Some("index.html".to_string()));
    assert_eq!(resource(route_protocol_request(RequestMethod::Get, "settings/app.js")), Some("app.js".to_string()));
    assert_eq!(resource(route_protocol_request(RequestMethod::Get, "localhost/settings/index.html")), Some("index.html".to_string()));
    assert_eq!(resource(route_protocol_request(RequestMethod::Get, "style.css")), Some("style.css".to_string()));
    assert_eq!(trim_leading_slashes("///settings/x"), "settings/x");
    assert_eq!(trim_leading_slashes("a/b"), "a/b");
}

#[test]
fn missing_resources() {
    assert_eq!(missing_resource("index.html"), MissingResource::FallbackIndex);
    assert_eq!(missing_resource("app.js"), MissingResource::NotFound);
}

#[test]
fn content_types() {
    assert_eq!(content_type_for_extension(Some("html")), "text/html; charset=utf-8");
    assert_eq!(content_type_for_extension(Some("css")), "text/css; charset=utf-8");
    assert_eq!(content_type_for_extension(Some("js")), "application/javascript; charset=utf-8");
    assert_eq!(content_type_for_extension(Some("json")), "application/json; charset=utf-8");
    assert_eq!(content_type_for_extension(Some("svg")), "image/svg+xml");
    assert_eq!(content_type_for_extension(Some("png")), "image/png");
    assert_eq!(content_type_for_extension(Some("jpg")), "image/jpeg");
    assert_eq!(content_type_for_extension(Some("jpeg")), "image/jpeg");
    assert_eq!(content_type_for_extension(Some("ico")), "image/x-icon");
    assert_eq!(content_type_for_extension(Some("HTML")), "application/octet-stream");
    assert_eq!(content_type_for_extension(None), "application/octet-stream");
}

#[test]
fn flash_file_events() {
    let names = vec![None, Some("other.json".to_string()), Some("Settings_Flash.JSON".to_string())];
    assert!(is_settings_flash_event(true, &names));
    assert!(!is_settings_flash_event(false, &names));
    assert!(!is_settings_flash_event(true, &vec![Some("settings.json".to_string())]));
    assert!(!is_settings_flash_event(true, &vec![]));
    assert!(eq_ignore_ascii_case("ABC", "abc"));
    assert!(!eq_ignore_ascii_case("abc", "abcd"));
    assert!(!eq_ignore_ascii_case("é", "É"));
}

#[test]
fn flash_deliveries_are_debounced() {
    let mut w = FlashWatcher::new(10_000);
    assert!(!w.on_event(false, 10_000));
    assert!(w.on_event(true, 10_000));
    assert!(!w.on_event(true, 10_150));
    assert!(w.on_event(true, 10_200));
    assert!(!w.on_event(true, 5));
    let mut early = FlashWatcher::new(100);
    assert!(!early.on_event(true, 250));
    assert!(early.on_event(true, 300));
}

#[test]
fn script_queue_drains_in_order() {
    let mut q = ScriptQueue::new();
    queue_script_eval(&mut q, "a()".to_string());
    queue_script_eval(&mut q, "b()".to_string());
    assert_eq!(drain_queued_scripts(&mut q), vec!["a()".to_string(), "b()".to_string()]);
    assert!(drain_queued_scripts(&mut q).is_empty());
}

#[test]
fn window_shown_once_when_ready() {
    let mut s = WindowState::new();
    assert!(!show_window_when_ready(&mut s, true));
    mark_settings_window_ui_ready(&mut s);
    assert!(!show_window_when_ready(&mut s, false));
    assert!(!s.ui_ready);
    mark_settings_window_ui_ready(&mut s);
    assert!(show_window_when_ready(&mut s, true));
    assert!(s.window_shown);
    mark_settings_window_ui_ready(&mut s);
    assert!(!show_window_when_ready(&mut s, true));
    assert!(s.ui_ready);
}

#[test]
fn settings_process_flag() {
    let args = vec!["vocoflow".to_string(), "--settings-window".to_string()];
    assert!(should_run_as_settings_process(&args));
    assert!(!should_run_as_settings_process(&vec!["vocoflow".to_string()]));
}

#[test]
fn key_and_button_triggers() {
    assert_eq!(map_key_trigger(InputKey::BackQuote), Some(TriggerInput::Key(KeyToken::Backquote)));
    assert_eq!(map_key_trigger(InputKey::Return), Some(TriggerInput::Key(KeyToken::Enter)));
    assert_eq!(map_key_trigger(InputKey::Function(7)), Some(TriggerInput::Key(KeyToken::Function(7))));
    assert_eq!(map_key_trigger(InputKey::Letter('q')), Some(TriggerInput::Key(KeyToken::Char('q'))));
    assert_eq!(map_key_trigger(InputKey::ControlLeft), None);
    assert_eq!(map_key_trigger(InputKey::Other), None);
    assert_eq!(map_mouse_trigger(InputButton::Middle), Some(TriggerInput::Mouse(MouseButtonToken::Middle)));
    assert_eq!(map_mouse_trigger(InputButton::Unknown(4)), Some(TriggerInput::Mouse(MouseButtonToken::Button4)));
    assert_eq!(map_mouse_trigger(InputButton::Unknown(5)), Some(TriggerInput::Mouse(MouseButtonToken::Button5)));
    assert_eq!(map_mouse_trigger(InputButton::Unknown(6)), None);
}

#[test]
fn modifiers_follow_keys() {
    let mut m = Modifiers::default();
    update_modifier_state(&mut m, InputKey::ShiftRight, true);
    update_modifier_state(&mut m, InputKey::AltGr, true);
    update_modifier_state(&mut m, InputKey::Letter('a'), true);
    assert_eq!(m, Modifiers { ctrl: false, shift: true, alt: true, meta: false });
    update_modifier_state(&mut m, InputKey::ShiftLeft, false);
    update_modifier_state(&mut m, InputKey::MetaLeft, true);
    assert_eq!(m, Modifiers { ctrl: false, shift: false, alt: true, meta: true });
}

#[test]
fn hotkey_fires_once_per_hold() {
    let mut l = HotkeyListener::new();
    assert_eq!(on_input_event(&mut l, InputEvent::KeyPress(InputKey::ControlLeft)), None);
    assert!(l.modifiers.ctrl);
    let t = on_input_event(&mut l, InputEvent::KeyPress(InputKey::BackQuote));
    assert_eq!(t, Some(TriggerInput::Key(KeyToken::Backquote)));
    assert_eq!(on_matcher_result(&mut l, true, true, false), HotkeyAction::StartRecording);
    assert!(l.hotkey_was_pressed);
    assert_eq!(on_input_event(&mut l, InputEvent::KeyPress(InputKey::BackQuote)), None);
    assert_eq!(on_input_event(&mut l, InputEvent::ButtonPress(InputButton::Left)), None);
    assert_eq!(on_input_event(&mut l, InputEvent::KeyRelease(InputKey::BackQuote)), None);
    assert!(!l.hotkey_was_pressed);
    assert!(on_input_event(&mut l, InputEvent::KeyPress(InputKey::BackQuote)).is_some());
    assert_eq!(on_matcher_result(&mut l, true, true, true), HotkeyAction::StopRecording);
    assert_eq!(on_input_event(&mut l, InputEvent::ButtonRelease(InputButton::Unknown(9))), None);
    assert!(l.hotkey_was_pressed);
    on_input_event(&mut l, InputEvent::ButtonRelease(InputButton::Right));
    assert!(!l.hotkey_was_pressed);
}

#[test]
fn hotkey_actions() {
    let mut l = HotkeyListener::new();
    assert_eq!(on_matcher_result(&mut l, false, true, false), HotkeyAction::Ignore);
    assert!(!l.hotkey_was_pressed);
    assert_eq!(on_matcher_result(&mut l, true, false, false), HotkeyAction::WakeOnly);
    assert!(l.hotkey_was_pressed);
}

#[test]
fn prefix_stripping() {
    assert_eq!(strip_prefix("settings/a", "settings/"), Some("a".to_string()));
    assert_eq!(strip_prefix("settings/", "settings/"), Some(String::new()));
    assert_eq!(strip_prefix("set", "settings/"), None);
    assert_eq!(strip_prefix("other/a", "settings/"), None);
}

#[test]
fn whitespace_matches_std() {
    for u in 0u32..=0x10FFFF {
        if let Some(c) = char::from_u32(u) {
            assert_eq!(vocoflow::text::is_whitespace(c), c.is_whitespace(), "U+{u:04X}");
        }
    }
}

#[test]
fn listener_disable_flag() {
    assert!(hotkey_listener_disabled(Some("1")));
    assert!(hotkey_listener_disabled(Some(" TRUE\n")));
    assert!(hotkey_listener_disabled(Some("Yes")));
    assert!(!hotkey_listener_disabled(Some("no")));
    assert!(!hotkey_listener_disabled(Some("")));
    assert!(!hotkey_listener_disabled(Some("yes please")));
    assert!(!hotkey_listener_disabled(None));
    assert_eq!(trim("\u{3000} a b \t"), "a b");
    assert_eq!(trim("   "), "");
}
