use std::sync::atomic::{AtomicUsize, Ordering};

use ovim::click_mode::{ClickKeyEffect, ClickModeManager};
use ovim::capture::{KeyboardCapture, LaunchCapture, MouseClickEvent, TapEventKind, TapVerdict};
use ovim::config::VimKeyModifiers;
use ovim::dispatch::{
    double_tap_activation, escape_double_tap, handle_key_event, KeyOutcome, is_frontmost_app_listed, matches_double_tap_setting, route_key_event,
    shortcut_pressed, DoubleTapAction, DoubleTapModifier, KeyRoute, RouteContext, ShortcutConfig,
};
use ovim::double_tap::{DoubleTapKey, DoubleTapManager};
use ovim::inject::INJECTED_EVENT_MARKER;
use ovim::ipc::VimMode;
use ovim::keycode::{KeyCode, KeyEvent, Modifiers, COMMAND_MASK, SHIFT_MASK};

fn no_mods() -> VimKeyModifiers {
    VimKeyModifiers { shift: false, control: false, option: false, command: false }
}

fn key(k: KeyCode, down: bool, m: Modifiers) -> KeyEvent {
    KeyEvent { code: k.as_raw(), modifiers: m, is_key_down: down }
}

fn ctx() -> RouteContext {
    RouteContext {
        click_mode_active: false,
        recording: false,
        edit_popup: ShortcutConfig {
            enabled: true,
            key: "e".to_string(),
            modifiers: VimKeyModifiers { shift: false, control: false, option: false, command: true },
        },
        click_mode: ShortcutConfig {
            enabled: true,
            key: "F".to_string(),
            modifiers: VimKeyModifiers { shift: true, control: false, option: false, command: true },
        },
        vim_enabled: true,
        vim_key: "escape".to_string(),
        vim_key_modifiers: no_mods(),
        vim_mode: VimMode::Normal,
        ignored_apps: vec!["com.example.term".to_string()],
        frontmost_app: Some("com.example.editor".to_string()),
        scroll_enabled: false,
        scroll_app_enabled: false,
        scroll_step: 60,
    }
}

fn cmd() -> Modifiers {
    Modifiers { shift: false, control: false, option: false, command: true, caps_lock: false }
}

#[test]
fn double_tap_settings() {
    assert!(matches_double_tap_setting(&DoubleTapModifier::Shift, &DoubleTapKey::Shift));
    assert!(!matches_double_tap_setting(&DoubleTapModifier::Shift, &DoubleTapKey::Command));
    assert!(!matches_double_tap_setting(&DoubleTapModifier::Disabled, &DoubleTapKey::Escape));
}

#[test]
fn click_mode_wins_a_shared_double_tap() {
    let k = DoubleTapKey::Option;
    let o = DoubleTapModifier::Option;
    assert_eq!(double_tap_activation(k, o, true, o, true), DoubleTapAction::StartClickMode);
    assert_eq!(double_tap_activation(k, o, false, o, true), DoubleTapAction::OpenEditPopup);
    assert_eq!(double_tap_activation(k, o, false, o, false), DoubleTapAction::Ignore);
    assert_eq!(double_tap_activation(k, DoubleTapModifier::Command, true, o, true), DoubleTapAction::OpenEditPopup);
}

#[test]
fn escape_double_tap_is_swallowed_only_when_bound() {
    let mut m = DoubleTapManager::new();
    let down = key(KeyCode::Escape, true, Modifiers::default());
    let up = key(KeyCode::Escape, false, Modifiers::default());
    assert_eq!(escape_double_tap(&down, &mut m, true, false), None);
    assert_eq!(escape_double_tap(&up, &mut m, true, false), None);
    assert_eq!(escape_double_tap(&down, &mut m, true, false), None);
    assert_eq!(escape_double_tap(&up, &mut m, true, false), Some(DoubleTapKey::Escape));

    let mut m2 = DoubleTapManager::new();
    for ev in [down, up, down] {
        assert_eq!(escape_double_tap(&ev, &mut m2, false, false), None);
    }
    assert_eq!(escape_double_tap(&up, &mut m2, false, false), None);

    let other = key(KeyCode::J, false, Modifiers::default());
    assert_eq!(escape_double_tap(&other, &mut m2, true, true), None);
}

#[test]
fn shortcuts_need_exact_modifiers() {
    let m = VimKeyModifiers { shift: false, control: false, option: false, command: true };
    assert!(shortcut_pressed(true, "E", &m, &key(KeyCode::E, true, cmd())));
    assert!(!shortcut_pressed(false, "E", &m, &key(KeyCode::E, true, cmd())));
    assert!(!shortcut_pressed(true, "E", &m, &key(KeyCode::E, true, Modifiers::default())));
    assert!(!shortcut_pressed(true, "nonsense", &m, &key(KeyCode::E, true, cmd())));
    // Caps Lock does not count.
    let with_caps = Modifiers { caps_lock: true, ..cmd() };
    assert!(shortcut_pressed(true, "e", &m, &key(KeyCode::E, true, with_caps)));
}

#[test]
fn frontmost_app_membership() {
    let apps = vec!["a.b".to_string(), "c.d".to_string()];
    assert!(is_frontmost_app_listed(&apps, &Some("c.d".to_string())));
    assert!(!is_frontmost_app_listed(&apps, &Some("x".to_string())));
    assert!(!is_frontmost_app_listed(&apps, &None));
}

#[test]
fn routing_order() {
    let c = ctx();
    let mut active = ctx();
    active.click_mode_active = true;
    assert!(matches!(route_key_event(&active, &key(KeyCode::E, true, cmd())), KeyRoute::ClickMode));

    let mut rec = ctx();
    rec.recording = true;
    match route_key_event(&rec, &key(KeyCode::E, true, cmd())) {
        KeyRoute::Record(rk) => assert_eq!(rk.name, "e"),
        other => panic!("unexpected {:?}", other),
    }
    // Key-up is not recorded.
    assert!(matches!(route_key_event(&rec, &key(KeyCode::E, false, cmd())), KeyRoute::VimInput));

    assert!(matches!(route_key_event(&c, &key(KeyCode::E, true, cmd())), KeyRoute::EditPopupShortcut));
    let shift_cmd = Modifiers { shift: true, ..cmd() };
    assert!(matches!(route_key_event(&c, &key(KeyCode::F, true, shift_cmd)), KeyRoute::ClickModeShortcut));
    assert!(matches!(
        route_key_event(&c, &key(KeyCode::Escape, true, Modifiers::default())),
        KeyRoute::VimKey
    ));
    assert!(matches!(route_key_event(&c, &key(KeyCode::J, true, Modifiers::default())), KeyRoute::VimInput));
}

#[test]
fn vim_key_passes_through_in_excluded_app_while_inserting() {
    let mut c = ctx();
    c.vim_mode = VimMode::Insert;
    c.frontmost_app = Some("com.example.term".to_string());
    assert!(matches!(
        route_key_event(&c, &key(KeyCode::Escape, true, Modifiers::default())),
        KeyRoute::VimKeyPassThrough
    ));
    c.vim_mode = VimMode::Normal;
    assert!(matches!(
        route_key_event(&c, &key(KeyCode::Escape, true, Modifiers::default())),
        KeyRoute::VimKey
    ));
}

#[test]
fn scroll_mode_routing() {
    let mut c = ctx();
    c.scroll_enabled = true;
    c.scroll_app_enabled = true;
    // Vim in normal mode for a non-excluded app keeps the key.
    assert!(matches!(route_key_event(&c, &key(KeyCode::J, true, Modifiers::default())), KeyRoute::VimInput));
    c.vim_mode = VimMode::Insert;
    assert!(matches!(route_key_event(&c, &key(KeyCode::J, true, Modifiers::default())), KeyRoute::ScrollMode(60)));
    c.vim_mode = VimMode::Normal;
    c.vim_enabled = false;
    assert!(matches!(route_key_event(&c, &key(KeyCode::J, false, Modifiers::default())), KeyRoute::ScrollMode(60)));
    c.scroll_app_enabled = false;
    assert!(matches!(route_key_event(&c, &key(KeyCode::J, true, Modifiers::default())), KeyRoute::PassThrough));
}

fn drop_j(e: KeyEvent) -> Option<KeyEvent> {
    if e.code == KeyCode::J.as_raw() { None } else { Some(e) }
}
fn k_to_l(e: KeyEvent) -> Option<KeyEvent> {
    if e.code == KeyCode::K.as_raw() { Some(KeyEvent { code: KeyCode::L.as_raw(), ..e }) } else { Some(e) }
}
fn mouse_ok(_m: MouseClickEvent) -> bool {
    true
}
fn scrolled() {}

type Capture = KeyboardCapture<fn(KeyEvent) -> Option<KeyEvent>, fn(MouseClickEvent) -> bool, fn()>;

#[test]
fn capture_start_and_stop() {
    let mut c: Capture = KeyboardCapture::new();
    assert!(!c.is_running());
    assert!(c.start());
    assert!(!c.start());
    assert!(c.is_running());
    c.stop();
    assert!(!c.is_running());
}

#[test]
fn tap_events_are_kept_or_dropped() {
    let mut c: Capture = KeyboardCapture::new();
    let j = KeyCode::J.as_raw();
    // Without a callback every key is kept.
    assert_eq!(c.handle_tap_event(TapEventKind::KeyDown, 0, j, 0), TapVerdict::Keep);
    c.set_callback(drop_j);
    c.set_mouse_callback(mouse_ok);
    c.set_scroll_callback(scrolled);
    assert_eq!(c.handle_tap_event(TapEventKind::KeyDown, 0, j, 0), TapVerdict::Drop);
    assert_eq!(c.handle_tap_event(TapEventKind::KeyUp, 0, j, SHIFT_MASK | COMMAND_MASK), TapVerdict::Drop);
    match c.handle_tap_event(TapEventKind::KeyDown, 0, KeyCode::K.as_raw(), 0) {
        TapVerdict::Pass(e) => {
            assert_eq!(e.code, KeyCode::K.as_raw());
            assert!(e.is_key_down);
        }
        other => panic!("expected the event to pass, got {:?}", other),
    }
    assert_eq!(c.handle_tap_event(TapEventKind::KeyDown, INJECTED_EVENT_MARKER, j, 0), TapVerdict::Keep);
    assert_eq!(c.handle_tap_event(TapEventKind::FlagsChanged, 0, j, 0), TapVerdict::Keep);
    assert_eq!(c.handle_tap_event(TapEventKind::LeftMouseDown, 0, j, 0), TapVerdict::Keep);
    assert_eq!(c.handle_tap_event(TapEventKind::ScrollWheel, 0, j, 0), TapVerdict::Keep);
    assert_eq!(c.handle_tap_event(TapEventKind::TapDisabledByTimeout, 0, j, 0), TapVerdict::ReEnable);
    assert_eq!(c.handle_tap_event(TapEventKind::TapDisabledByUserInput, 0, j, 0), TapVerdict::ReEnable);
}

#[test]
fn callback_can_change_the_event_it_passes() {
    let mut c: Capture = KeyboardCapture::new();
    c.set_callback(k_to_l);
    match c.handle_tap_event(TapEventKind::KeyUp, 0, KeyCode::K.as_raw(), 0) {
        TapVerdict::Pass(e) => {
            assert_eq!(e.code, KeyCode::L.as_raw());
            assert!(!e.is_key_down);
        }
        other => panic!("expected the changed event, got {:?}", other),
    }
}

#[test]
fn everything_off_passes_every_key() {
    let mut c = ctx();
    c.edit_popup.enabled = false;
    c.click_mode.enabled = false;
    c.vim_enabled = false;
    for k in [KeyCode::E, KeyCode::Escape, KeyCode::J] {
        assert!(matches!(route_key_event(&c, &key(k, true, cmd())), KeyRoute::PassThrough));
        assert!(matches!(route_key_event(&c, &key(k, false, Modifiers::default())), KeyRoute::PassThrough));
    }
}

static RIGHT_CLICKS: AtomicUsize = AtomicUsize::new(0);
static SCROLLS: AtomicUsize = AtomicUsize::new(0);

fn count_right_click(m: MouseClickEvent) -> bool {
    if m.is_right_click && !m.is_left_click {
        RIGHT_CLICKS.fetch_add(1, Ordering::SeqCst);
    }
    true
}
fn count_scroll() {
    SCROLLS.fetch_add(1, Ordering::SeqCst);
}

#[test]
fn pointer_events_reach_their_callbacks() {
    let mut c: Capture = KeyboardCapture::new();
    c.set_mouse_callback(count_right_click);
    c.set_scroll_callback(count_scroll);
    let j = KeyCode::J.as_raw();
    assert_eq!(c.handle_tap_event(TapEventKind::RightMouseDown, 0, j, 0), TapVerdict::Keep);
    assert_eq!(c.handle_tap_event(TapEventKind::ScrollWheel, 0, j, 0), TapVerdict::Keep);
    assert_eq!(c.handle_tap_event(TapEventKind::ScrollWheel, 0, j, 0), TapVerdict::Keep);
    assert_eq!(RIGHT_CLICKS.load(Ordering::SeqCst), 1);
    assert_eq!(SCROLLS.load(Ordering::SeqCst), 2);
}

#[test]
fn capture_starts_at_launch_only_with_permission() {
    let mut c: Capture = KeyboardCapture::new();
    assert_eq!(c.start_if_permitted(false), LaunchCapture::RequestPermission);
    assert!(!c.is_running());
    assert_eq!(c.start_if_permitted(true), LaunchCapture::StartTap);
    assert!(c.is_running());
    assert_eq!(c.start_if_permitted(true), LaunchCapture::AlreadyRunning);
}

#[test]
fn key_handler_gives_active_click_mode_every_key() {
    let c = ctx();
    let mut detector = DoubleTapManager::new();
    let mut click = ClickModeManager::new();
    let e = key(KeyCode::E, true, cmd());
    // Click mode off: the Edit Popup shortcut is routed.
    match handle_key_event(&c, e, &mut detector, &mut click, false, false) {
        KeyOutcome::Routed(KeyRoute::EditPopupShortcut) => {}
        other => panic!("unexpected {:?}", other),
    }
    // Click mode on: the same key goes to click mode and is swallowed.
    click.set_activating();
    match handle_key_event(&c, e, &mut detector, &mut click, false, false) {
        KeyOutcome::ClickMode(_) => {}
        other => panic!("unexpected {:?}", other),
    }
    // With no hints, a typed letter misses and ends click mode.
    assert!(!click.is_active());
    // Escape cancels click mode.
    click.set_activating();
    match handle_key_event(&c, key(KeyCode::Escape, true, Modifiers::default()), &mut detector, &mut click, false, false) {
        KeyOutcome::ClickMode(ClickKeyEffect::Deactivated) => {}
        other => panic!("unexpected {:?}", other),
    }
    assert!(!click.is_active());
}

#[test]
fn key_handler_takes_escape_double_tap_first() {
    let c = ctx();
    let mut detector = DoubleTapManager::new();
    let mut click = ClickModeManager::new();
    click.set_activating();
    let down = key(KeyCode::Escape, true, Modifiers::default());
    let up = key(KeyCode::Escape, false, Modifiers::default());
    assert!(matches!(handle_key_event(&c, down, &mut detector, &mut click, true, false), KeyOutcome::ClickMode(_)));
    // The first Escape cancelled click mode; the second tap completes the double-tap.
    assert!(!matches!(handle_key_event(&c, up, &mut detector, &mut click, true, false), KeyOutcome::EscapeDoubleTap));
    assert!(!matches!(handle_key_event(&c, down, &mut detector, &mut click, true, false), KeyOutcome::EscapeDoubleTap));
    assert!(matches!(handle_key_event(&c, up, &mut detector, &mut click, true, false), KeyOutcome::EscapeDoubleTap));
}
