use ovim::ax::{
    get_max_depth, get_max_elements, is_clickable_role, plan_node, set_limits, should_search_for_menus,
    traversal_should_stop, Clickability,
    NodePlan, TraversalLimits,
};
use ovim::browser::BrowserType;
use ovim::element_query::{
    helper_arguments, millis_of_nanos, cache_elements, cache_is_fresh, cached_elements_at, get_cached_elements, invalidate_cache, should_fetch_browser_elements,
    update_timing_settings, ElementCache, TimingSettings,
};
use ovim::indicator::{migrate_widget_rows, sanitize_rows, RowItem};
use ovim::inject::{
    cursor_left, document_end, half_page_scroll_down, half_page_scroll_up, inject_arrow, line_start, paste,
    scroll_down, scroll_to_bottom, scroll_to_top, scroll_up, word_forward, ArrowDirection, SyntheticEvent,
};
use ovim::scroll_mode::{handle_scroll_mode_key, scroll_key_outcome, ScrollKeyAction, ScrollResult};
use ovim::keycode::{KeyCode, KeyEvent, Modifiers};
use ovim::list_mode::{create_list_state, handle_list_mode_key, ListResult};

fn press(k: KeyCode, m: Modifiers) -> Vec<SyntheticEvent> {
    vec![
        SyntheticEvent::Key { keycode: k, key_down: true, modifiers: m },
        SyntheticEvent::Key { keycode: k, key_down: false, modifiers: m },
    ]
}

fn mods(shift: bool, command: bool, option: bool) -> Modifiers {
    Modifiers { shift, control: false, option, command, caps_lock: false }
}

#[test]
fn keycode_tables_agree() {
    assert_eq!(KeyCode::from_raw(0x26), Some(KeyCode::J));
    assert_eq!(KeyCode::J.as_raw(), 0x26);
    assert_eq!(KeyCode::from_name("ESCAPE"), Some(KeyCode::Escape));
    assert_eq!(KeyCode::Space.to_char(), Some(' '));
    assert_eq!(KeyCode::from_raw(0xFFFF), None);
}

#[test]
fn modifier_flags_round_trip() {
    let m = Modifiers { shift: true, control: false, option: true, command: true, caps_lock: false };
    assert_eq!(Modifiers::from_cg_flags(m.to_cg_flags()), m);
    assert_eq!(Modifiers::from_cg_flags(0x00020000 | 0x00100000 | 0x1), mods(true, true, false));
}

#[test]
fn key_event_knows_its_key() {
    let e = KeyEvent { code: 0x35, modifiers: Modifiers::default(), is_key_down: true };
    assert_eq!(e.keycode(), Some(KeyCode::Escape));
}

#[test]
fn motion_plans() {
    assert_eq!(cursor_left(2, false), [press(KeyCode::Left, mods(false, false, false)), press(KeyCode::Left, mods(false, false, false))].concat());
    assert_eq!(word_forward(1, true), press(KeyCode::Right, mods(true, false, true)));
    assert_eq!(line_start(false), press(KeyCode::Left, mods(false, true, false)));
    assert_eq!(document_end(true), press(KeyCode::Down, mods(true, true, false)));
    assert_eq!(paste(), press(KeyCode::V, mods(false, true, false)));
    assert_eq!(inject_arrow(ArrowDirection::Up, Modifiers::default()), press(KeyCode::Up, Modifiers::default()));
    assert!(cursor_left(0, false).is_empty());
}

#[test]
fn scroll_plans() {
    assert_eq!(scroll_down(60), vec![SyntheticEvent::Scroll { delta_x: 0, delta_y: -60 }]);
    assert_eq!(scroll_up(60), vec![SyntheticEvent::Scroll { delta_x: 0, delta_y: 60 }]);
}

#[test]
fn page_plans_use_page_keys_and_command_arrows() {
    assert_eq!(half_page_scroll_down(), press(KeyCode::PageDown, Modifiers::default()));
    assert_eq!(half_page_scroll_up(), press(KeyCode::PageUp, Modifiers::default()));
    assert_eq!(scroll_to_top(), press(KeyCode::Up, mods(false, true, false)));
    assert_eq!(scroll_to_bottom(), press(KeyCode::Down, mods(false, true, false)));
}

#[test]
fn scroll_mode_routes_keys() {
    let shift = mods(true, false, false);
    let d_up = KeyEvent { code: 0x02, modifiers: Modifiers::default(), is_key_down: false };
    assert_eq!(handle_scroll_mode_key(d_up, 60), ScrollKeyAction::Suppress);
    let shift_j_up = KeyEvent { code: 0x26, modifiers: shift, is_key_down: false };
    assert_eq!(handle_scroll_mode_key(shift_j_up, 60), ScrollKeyAction::PassThrough);
    let shift_g_up = KeyEvent { code: KeyCode::G.as_raw(), modifiers: shift, is_key_down: false };
    assert_eq!(handle_scroll_mode_key(shift_g_up, 60), ScrollKeyAction::Suppress);
    let unknown = KeyEvent { code: 0xFFFF, modifiers: Modifiers::default(), is_key_down: true };
    assert_eq!(handle_scroll_mode_key(unknown, 60), ScrollKeyAction::PassThrough);
    let j_down = KeyEvent { code: 0x26, modifiers: shift, is_key_down: true };
    assert_eq!(
        handle_scroll_mode_key(j_down, 60),
        ScrollKeyAction::Process {
            keycode: KeyCode::J,
            shift: true,
            control: false,
            option: false,
            command: false,
            scroll_step: 60
        }
    );
    assert_eq!(scroll_key_outcome(j_down, ScrollResult::Handled), None);
    assert_eq!(scroll_key_outcome(j_down, ScrollResult::PassThrough), Some(j_down));
}

#[test]
fn list_mode_gg_goes_to_top() {
    let mut st = create_list_state();
    let g = KeyEvent { code: KeyCode::G.as_raw(), modifiers: Modifiers::default(), is_key_down: true };
    let (pass, evs) = handle_list_mode_key(g, &mut st);
    assert_eq!(pass, None);
    assert!(evs.is_empty());
    let (pass, evs) = handle_list_mode_key(g, &mut st);
    assert_eq!(pass, None);
    assert_eq!(evs, press(KeyCode::Home, Modifiers::default()));
}

#[test]
fn list_mode_passes_unknown_keys() {
    let mut st = create_list_state();
    let q = KeyEvent { code: KeyCode::Q.as_raw(), modifiers: Modifiers::default(), is_key_down: true };
    let (pass, evs) = handle_list_mode_key(q, &mut st);
    assert_eq!(pass, Some(q));
    assert!(evs.is_empty());
    let (r, evs) = st.process_key(KeyCode::J, false, false, false, false);
    assert_eq!(r, ListResult::Handled);
    assert_eq!(evs, press(KeyCode::Down, Modifiers::default()));
}

#[test]
fn indicator_rows_are_repaired() {
    let mut rows = vec![
        RowItem::Widget { widget_type: "None".to_string() },
        RowItem::ModeChar { size: 9 },
        RowItem::Widget { widget_type: "Time".to_string() },
        RowItem::ModeChar { size: 1 },
        RowItem::Widget { widget_type: "Battery".to_string() },
        RowItem::Widget { widget_type: "Date".to_string() },
    ];
    sanitize_rows(&mut rows);
    // Size 3 takes four rows, so only one widget fits.
    assert_eq!(rows, vec![RowItem::ModeChar { size: 3 }, RowItem::Widget { widget_type: "Time".to_string() }]);
}

#[test]
fn legacy_widgets_are_migrated() {
    let mut rows: Vec<RowItem> = Vec::new();
    assert!(migrate_widget_rows(&mut rows, "Time", "None"));
    assert_eq!(rows, vec![RowItem::Widget { widget_type: "Time".to_string() }, RowItem::ModeChar { size: 2 }]);
    assert!(!migrate_widget_rows(&mut rows, "Battery", "Date"));
}

#[test]
fn traversal_limits() {
    let mut l = TraversalLimits::new();
    assert_eq!((get_max_depth(&l), get_max_elements(&l)), (10, 500));
    set_limits(&mut l, 3, 4);
    assert_eq!((get_max_depth(&l), get_max_elements(&l)), (3, 4));
    assert!(!traversal_should_stop(3, 3, &l));
    assert!(traversal_should_stop(4, 0, &l));
    assert!(traversal_should_stop(0, 4, &l));
}

#[test]
fn element_roles() {
    assert!(is_clickable_role("AXButton"));
    assert!(is_clickable_role("AXHeading"));
    assert!(!is_clickable_role("AXGroup"));
    assert_eq!(plan_node("", false), NodePlan::Skip);
    assert_eq!(plan_node("AXUnknown", false), NodePlan::Skip);
    assert_eq!(plan_node("AXGroup", false), NodePlan::Visit { clickable: Clickability::Never, is_row: false });
    assert_eq!(plan_node("AXRow", false), NodePlan::Visit { clickable: Clickability::Always, is_row: true });
    assert_eq!(plan_node("AXCell", true), NodePlan::Visit { clickable: Clickability::Never, is_row: false });
    assert_eq!(plan_node("AXCell", false), NodePlan::Visit { clickable: Clickability::Always, is_row: false });
    assert_eq!(plan_node("AXWindow", false), NodePlan::Visit { clickable: Clickability::Never, is_row: false });
}

#[test]
fn timing_settings() {
    let mut t = TimingSettings::default();
    assert_eq!(t, TimingSettings { cache_ttl_ms: 500, ax_delay_ms: 10, max_depth: 10, max_elements: 500 });
    update_timing_settings(&mut t, 100, 5, 7, 9);
    assert_eq!(t, TimingSettings { cache_ttl_ms: 100, ax_delay_ms: 5, max_depth: 7, max_elements: 9 });
}

#[test]
fn element_cache_by_process() {
    assert!(cache_is_fresh(5, 5, 499, 500));
    assert!(!cache_is_fresh(5, 5, 500, 500));
    assert!(!cache_is_fresh(5, 6, 0, 500));
    let mut cache: Option<ElementCache<u32>> = None;
    assert!(get_cached_elements(&cache, 1, 500).is_none());
    cache_elements(&mut cache, 1, vec![7, 8], true);
    assert_eq!(get_cached_elements(&cache, 1, 60_000), Some((vec![7, 8], true)));
    assert!(get_cached_elements(&cache, 2, 60_000).is_none());
    assert!(get_cached_elements(&cache, 1, 0).is_none());
    invalidate_cache(&mut cache);
    assert!(get_cached_elements(&cache, 1, 60_000).is_none());
}

#[test]
fn browser_queries() {
    assert!(should_fetch_browser_elements(None, Some(BrowserType::Chrome)));
    assert!(should_fetch_browser_elements(Some(false), Some(BrowserType::Arc)));
    assert!(!should_fetch_browser_elements(Some(true), Some(BrowserType::Arc)));
    assert!(!should_fetch_browser_elements(None, Some(BrowserType::Safari)));
    assert!(!should_fetch_browser_elements(None, None));
}

#[test]
fn every_key_is_found_by_its_name() {
    let mut seen = 0;
    for code in 0u16..=0xFF {
        if let Some(k) = KeyCode::from_raw(code) {
            assert_eq!(k.as_raw(), code);
            assert_eq!(KeyCode::from_name(k.to_name()), Some(k));
            seen += 1;
        }
    }
    assert!(seen > 50);
}

#[test]
fn sanitizing_rows_twice_changes_nothing() {
    let mut rows = vec![
        RowItem::Widget { widget_type: "Time".to_string() },
        RowItem::ModeChar { size: 0 },
        RowItem::Widget { widget_type: "Battery".to_string() },
        RowItem::Widget { widget_type: "Date".to_string() },
        RowItem::Widget { widget_type: "CPU".to_string() },
    ];
    sanitize_rows(&mut rows);
    let once = rows.clone();
    sanitize_rows(&mut rows);
    assert_eq!(rows, once);
    // Size 0 is clamped to 1, taking two rows; three widgets fit.
    assert_eq!(once.len(), 4);
    assert_eq!(once[1], RowItem::ModeChar { size: 1 });
}

#[test]
fn oversized_layouts_are_refused_by_the_checked_repair() {
    let mut rows: Vec<RowItem> = (0..300).map(|i| RowItem::Widget { widget_type: format!("w{}", i) }).collect();
    assert!(!ovim::indicator::sanitize_rows_checked(&mut rows));
    assert_eq!(rows.len(), 300);
    let mut small = vec![RowItem::ModeChar { size: 2 }, RowItem::ModeChar { size: 3 }];
    assert!(ovim::indicator::sanitize_rows_checked(&mut small));
    assert_eq!(small, vec![RowItem::ModeChar { size: 2 }]);
}

#[test]
fn menu_search_skips_text_and_deep_levels() {
    assert!(should_search_for_menus("AXGroup", 1));
    assert!(should_search_for_menus("AXGroup", 3));
    assert!(!should_search_for_menus("AXGroup", 4));
    assert!(!should_search_for_menus("AXStaticText", 0));
    assert!(!should_search_for_menus("AXTextArea", 1));
}

#[test]
fn cache_lookup_by_age() {
    let mut cache: Option<ElementCache<u8>> = None;
    assert_eq!(cached_elements_at(&cache, 3, 0, 500), None);
    cache_elements(&mut cache, 3, vec![1, 2, 3], false);
    assert_eq!(cached_elements_at(&cache, 3, 499, 500), Some((vec![1, 2, 3], false)));
    assert_eq!(cached_elements_at(&cache, 3, 500, 500), None);
    assert_eq!(cached_elements_at(&cache, 4, 0, 500), None);
}

#[test]
fn cache_age_counts_whole_milliseconds() {
    assert_eq!(millis_of_nanos(2_500_000), 2);
    assert_eq!(millis_of_nanos(999_999), 0);
    assert_eq!(millis_of_nanos(1_000_000), 1);
}

#[test]
fn helper_runs_with_updated_timing() {
    let mut t = TimingSettings::default();
    update_timing_settings(&mut t, 750, 25, 8, 300);
    assert_eq!(helper_arguments(&t, 4242), (4242, 25, 8, 300));
    assert!(cache_is_fresh(4242, 4242, 749, t.cache_ttl_ms));
    assert!(!cache_is_fresh(4242, 4242, 750, t.cache_ttl_ms));
}
