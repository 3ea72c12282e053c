use ovim::click_mode::{
    handle_click_mode_key, ClickAction, ClickKeyEffect, ClickModeManager, ClickModeState, ClickTarget, HintInputResult,
};
use ovim::keycode::{KeyCode, KeyEvent, Modifiers};

fn target(id: usize, hint: &str) -> ClickTarget {
    ClickTarget { id, hint: hint.to_string(), role: "AXButton".to_string(), title: format!("t{}", id) }
}

fn down(k: KeyCode) -> KeyEvent {
    KeyEvent { code: k.as_raw(), modifiers: Modifiers::default(), is_key_down: true }
}

fn active(hints: &[&str]) -> ClickModeManager {
    let mut m = ClickModeManager::new();
    let targets: Vec<ClickTarget> = hints.iter().enumerate().map(|(i, h)| target(i, h)).collect();
    assert!(m.activate(Ok(targets)).is_ok());
    m
}

#[test]
fn activation_outcomes() {
    let mut m = ClickModeManager::new();
    assert!(!m.is_active());
    assert_eq!(m.activate(Err("boom".to_string())).unwrap_err(), "boom");
    assert!(!m.is_active());
    assert_eq!(m.activate(Ok(Vec::new())).unwrap_err(), "No clickable elements found");
    let got = m.activate(Ok(vec![target(0, "A"), target(1, "S")])).unwrap();
    assert_eq!(got.len(), 2);
    assert!(m.is_active());
    assert!(m.state().is_showing_hints());
    assert_eq!(m.get_current_input(), "");
    m.set_activating();
    m.deactivate();
    assert!(!m.is_active());
    assert!(m.get_all_elements().is_empty());
}

#[test]
fn typing_a_hint_matches() {
    let mut m = active(&["A", "SA", "SF"]);
    assert!(matches!(m.handle_hint_input('s'), HintInputResult::Partial));
    assert_eq!(m.get_current_input(), "S");
    assert_eq!(m.get_filtered_elements().len(), 2);
    match m.handle_hint_input('f') {
        HintInputResult::Match(t) => assert_eq!(t.hint, "SF"),
        other => panic!("unexpected {:?}", other),
    }
}

#[test]
fn one_wrong_second_key_is_forgiven() {
    let mut m = active(&["SA", "SF"]);
    assert!(matches!(m.handle_hint_input('s'), HintInputResult::Partial));
    assert!(matches!(m.handle_hint_input('x'), HintInputResult::WrongSecondKey));
    assert_eq!(m.get_current_input(), "S");
    assert!(matches!(m.handle_hint_input('x'), HintInputResult::NoMatch));
}

#[test]
fn no_match_on_first_key() {
    let mut m = active(&["A", "S"]);
    assert!(matches!(m.handle_hint_input('q'), HintInputResult::NoMatch));
}

#[test]
fn clearing_input_removes_the_last_character() {
    let mut m = active(&["SA", "SF"]);
    m.handle_hint_input('s');
    m.clear_last_input();
    assert_eq!(m.get_current_input(), "");
    m.clear_last_input();
    assert_eq!(m.get_current_input(), "");
}

#[test]
fn search_mode() {
    let mut m = active(&["A", "S"]);
    m.enter_search_mode();
    assert!(m.state().is_searching());
    assert_eq!(m.state().input(), "");
}

#[test]
fn click_actions() {
    let mut m = active(&["A"]);
    assert_eq!(m.get_click_action(), ClickAction::Click);
    m.set_click_action(ClickAction::RightClick);
    assert_eq!(m.get_click_action(), ClickAction::RightClick);
    assert_eq!(ClickAction::CmdClick.display_name(), "cmd");
    assert_eq!(ClickAction::default(), ClickAction::Click);
    assert!(!ClickModeState::default().is_active());
}

#[test]
fn keys_in_click_mode() {
    let mut m = active(&["A", "SA", "SF"]);
    let (pass, eff) = handle_click_mode_key(down(KeyCode::R), &mut m);
    assert_eq!(pass, None);
    assert!(matches!(eff, ClickKeyEffect::ActionChanged(ClickAction::RightClick)));
    let (_, eff) = handle_click_mode_key(down(KeyCode::S), &mut m);
    assert!(matches!(eff, ClickKeyEffect::Hint { result: HintInputResult::Partial, action: ClickAction::RightClick }));
    let (_, eff) = handle_click_mode_key(down(KeyCode::Delete), &mut m);
    assert!(matches!(eff, ClickKeyEffect::InputCleared));
    assert_eq!(m.get_current_input(), "");
    let (_, eff) = handle_click_mode_key(down(KeyCode::A), &mut m);
    match eff {
        ClickKeyEffect::Hint { result: HintInputResult::Match(t), action } => {
            assert_eq!(t.hint, "A");
            assert_eq!(action, ClickAction::RightClick);
        }
        other => panic!("unexpected {:?}", other),
    }
    assert!(!m.is_active());
}

#[test]
fn escape_and_key_up_in_click_mode() {
    let mut m = active(&["A"]);
    let up = KeyEvent { code: KeyCode::A.as_raw(), modifiers: Modifiers::default(), is_key_down: false };
    let (_, eff) = handle_click_mode_key(up, &mut m);
    assert!(matches!(eff, ClickKeyEffect::Nothing));
    assert!(m.is_active());
    let (_, eff) = handle_click_mode_key(down(KeyCode::Escape), &mut m);
    assert!(matches!(eff, ClickKeyEffect::Deactivated));
    assert!(!m.is_active());
}

#[test]
fn pointer_event_dismisses_active_click_mode() {
    let mut m = ClickModeManager::new();
    assert!(!m.dismiss_on_pointer_event());
    assert!(!m.is_active());
    m.set_activating();
    assert!(m.is_active());
    assert!(m.dismiss_on_pointer_event());
    assert!(!m.is_active());
    assert!(!m.dismiss_on_pointer_event());
}
