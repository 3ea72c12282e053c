//! Where each key event goes.
//!
//! The event tap hands every key event to one routine that decides, in a
//! fixed order, who handles it: an Escape double-tap, click mode while it is
//! active, key recording, the Edit Popup and click-mode shortcuts, the vim
//! key, scroll mode, and finally the vim state machine. The order and each
//! test are stated here; `handle_key_event` runs the double-tap detector and
//! click mode itself and leaves the other handlers to the caller.

use vstd::prelude::*;

use crate::click_mode::{click_key_post, handle_click_mode_key, ClickKeyEffect, ClickModeManager};
use crate::commands::{recorded_key_for, RecordedKey, RecordedModifiers};
use crate::config::VimKeyModifiers;
use crate::double_tap::{after_press, after_release, cleared, DoubleTapKey, DoubleTapManager};
use crate::ipc::VimMode;
use crate::keycode::{display_name, key_name, name_to_key, raw_code, KeyCode, KeyEvent};
use crate::text::{str_eq, unicode_lower};

verus! {

/// The key a double-tap shortcut is set to.
#[derive(Debug, Clone, Copy, PartialEq, Eq, Structural)]
pub enum DoubleTapModifier {
    /// No double-tap shortcut.
    Disabled,
    Command,
    Option,
    Control,
    Shift,
    Escape,
}

/// Whether a detected double-tap is the one a setting names.
pub open spec fn double_tap_matches(setting: DoubleTapModifier, key: DoubleTapKey) -> bool {
    match (setting, key) {
        (DoubleTapModifier::Command, DoubleTapKey::Command) => true,
        (DoubleTapModifier::Option, DoubleTapKey::Option) => true,
        (DoubleTapModifier::Control, DoubleTapKey::Control) => true,
        (DoubleTapModifier::Shift, DoubleTapKey::Shift) => true,
        (DoubleTapModifier::Escape, DoubleTapKey::Escape) => true,
        _ => false,
    }
}

/// Whether a detected double-tap is the one a setting names.
pub fn matches_double_tap_setting(setting: &DoubleTapModifier, key: &DoubleTapKey) -> (r: bool)
    ensures
        r == double_tap_matches(*setting, *key),
{
    match (setting, key) {
        (DoubleTapModifier::Command, DoubleTapKey::Command) => true,
        (DoubleTapModifier::Option, DoubleTapKey::Option) => true,
        (DoubleTapModifier::Control, DoubleTapKey::Control) => true,
        (DoubleTapModifier::Shift, DoubleTapKey::Shift) => true,
        (DoubleTapModifier::Escape, DoubleTapKey::Escape) => true,
        _ => false,
    }
}

/// A double-tap setting names exactly one key, the one of the same name,
/// and a disabled setting names none: each key is matched by its own
/// setting and by no other.
pub proof fn lemma_double_tap_setting_names_one_key(setting: DoubleTapModifier, key: DoubleTapKey, other: DoubleTapKey)
    ensures
        !double_tap_matches(DoubleTapModifier::Disabled, key),
        double_tap_matches(setting, key) && double_tap_matches(setting, other) ==> key == other,
        double_tap_matches(DoubleTapModifier::Command, DoubleTapKey::Command),
        double_tap_matches(DoubleTapModifier::Option, DoubleTapKey::Option),
        double_tap_matches(DoubleTapModifier::Control, DoubleTapKey::Control),
        double_tap_matches(DoubleTapModifier::Shift, DoubleTapKey::Shift),
        double_tap_matches(DoubleTapModifier::Escape, DoubleTapKey::Escape),
{
}

/// What a detected double-tap starts.
#[derive(Debug, Clone, Copy, PartialEq, Eq, Structural)]
pub enum DoubleTapAction {
    /// Start click mode (marking it activating first if it is not active).
    StartClickMode,
    /// Open the Edit Popup.
    OpenEditPopup,
    /// The double-tap is not bound to an enabled feature.
    Ignore,
}

/// What a double-tap on `key` starts: click mode when its setting names the
/// key and it is enabled (click mode wins when both name the key), else the
/// Edit Popup under the same conditions.
pub open spec fn double_tap_outcome(
    key: DoubleTapKey,
    click_setting: DoubleTapModifier,
    click_enabled: bool,
    edit_setting: DoubleTapModifier,
    edit_enabled: bool,
) -> DoubleTapAction {
    if double_tap_matches(click_setting, key) && click_enabled {
        DoubleTapAction::StartClickMode
    } else if double_tap_matches(edit_setting, key) && edit_enabled {
        DoubleTapAction::OpenEditPopup
    } else {
        DoubleTapAction::Ignore
    }
}

/// A double-tap starts click mode exactly when click mode's setting names
/// the key and click mode is enabled; otherwise it opens the Edit Popup
/// exactly when that setting names the key and the popup is enabled; and a
/// double-tap no enabled feature names is ignored.
pub proof fn lemma_double_tap_activation(
    key: DoubleTapKey,
    click_setting: DoubleTapModifier,
    click_enabled: bool,
    edit_setting: DoubleTapModifier,
    edit_enabled: bool,
)
    ensures
        (double_tap_outcome(key, click_setting, click_enabled, edit_setting, edit_enabled)
            == DoubleTapAction::StartClickMode) == (double_tap_matches(click_setting, key) && click_enabled),
        (double_tap_outcome(key, click_setting, click_enabled, edit_setting, edit_enabled)
            == DoubleTapAction::OpenEditPopup) == (!(double_tap_matches(click_setting, key) && click_enabled)
            && double_tap_matches(edit_setting, key) && edit_enabled),
        !click_enabled && !edit_enabled ==> double_tap_outcome(key, click_setting, click_enabled, edit_setting, edit_enabled)
            == DoubleTapAction::Ignore,
{
}

/// Decides what a detected double-tap starts.
pub fn double_tap_activation(
    key: DoubleTapKey,
    click_setting: DoubleTapModifier,
    click_enabled: bool,
    edit_setting: DoubleTapModifier,
    edit_enabled: bool,
) -> (r: DoubleTapAction)
    ensures
        r == double_tap_outcome(key, click_setting, click_enabled, edit_setting, edit_enabled),
{
    let click_trigger = matches_double_tap_setting(&click_setting, &key);
    let edit_trigger = matches_double_tap_setting(&edit_setting, &key);
    if click_trigger && click_enabled {
        DoubleTapAction::StartClickMode
    } else if edit_trigger && edit_enabled {
        DoubleTapAction::OpenEditPopup
    } else {
        DoubleTapAction::Ignore
    }
}

/// Feeds an Escape event to the double-tap detector (other keys leave it
/// alone). Returns the double-tap to act on, and so to swallow the event
/// for: one detected on Escape while either feature's double-tap is set to
/// Escape.
pub fn escape_double_tap(
    event: &KeyEvent,
    detector: &mut DoubleTapManager,
    click_uses_escape: bool,
    edit_uses_escape: bool,
) -> (r: Option<DoubleTapKey>)
    requires
        old(detector).wf(),
    ensures
        final(detector).wf(),
        final(detector).prev_flags() == old(detector).prev_flags(),
        event.code != raw_code(KeyCode::Escape) ==> r is None && *final(detector) == *old(detector),
        r is Some ==> r == Some(DoubleTapKey::Escape) && event.code == raw_code(KeyCode::Escape)
            && !event.is_key_down && (click_uses_escape || edit_uses_escape),
        !(click_uses_escape || edit_uses_escape) ==> r is None,
        event.is_key_down ==> r is None,
        event.code == raw_code(KeyCode::Escape) && event.is_key_down ==> (exists|since: u128|
            final(detector).tracker(DoubleTapKey::Escape) == after_press(
                old(detector).tracker(DoubleTapKey::Escape),
                since,
            )) && forall|k: DoubleTapKey|
            k != DoubleTapKey::Escape ==> #[trigger] final(detector).tracker(k) == cleared(),
        event.code == raw_code(KeyCode::Escape) && !event.is_key_down ==> (exists|held: u128|
            {
                &&& final(detector).tracker(DoubleTapKey::Escape) == #[trigger] after_release(
                    old(detector).tracker(DoubleTapKey::Escape),
                    held,
                ).0
                &&& (r is Some <==> after_release(old(detector).tracker(DoubleTapKey::Escape), held).1 && (
                click_uses_escape || edit_uses_escape))
            }) && forall|k: DoubleTapKey|
            k != DoubleTapKey::Escape ==> #[trigger] final(detector).tracker(k) == old(detector).tracker(k),
{
    match event.keycode() {
        Some(KeyCode::Escape) => {
            let ghost before = detector.tracker(DoubleTapKey::Escape);
            let detected = detector.process_key_event(DoubleTapKey::Escape, event.is_key_down);
            let r = match detected {
                Some(k) => {
                    if click_uses_escape || edit_uses_escape {
                        Some(k)
                    } else {
                        None
                    }
                },
                None => None,
            };
            proof {
                if !event.is_key_down {
                    let h = choose|h: u128|
                        (detector.tracker(DoubleTapKey::Escape), detected is Some) == after_release(before, h);
                    assert(detector.tracker(DoubleTapKey::Escape) == after_release(before, h).0);
                }
            }
            r
        },
        _ => {
            proof {
                crate::keycode::lemma_raw_code_injective_all();
            }
            None
        },
    }
}

/// Whether the held modifiers are exactly the configured ones (Caps Lock
/// aside).
pub open spec fn modifiers_agree(event: KeyEvent, mods: VimKeyModifiers) -> bool {
    &&& event.modifiers.shift == mods.shift
    &&& event.modifiers.control == mods.control
    &&& event.modifiers.option == mods.option
    &&& event.modifiers.command == mods.command
}

/// Whether the held modifiers are exactly the configured ones.
pub fn modifiers_match(event: &KeyEvent, mods: &VimKeyModifiers) -> (r: bool)
    ensures
        r == modifiers_agree(*event, *mods),
{
    event.modifiers.shift == mods.shift && event.modifiers.control == mods.control
        && event.modifiers.option == mods.option && event.modifiers.command == mods.command
}

/// A key shortcut as the settings store it.
#[derive(Debug, Clone)]
pub struct ShortcutConfig {
    pub enabled: bool,
    /// The key's settings name, in any letter case.
    pub key: String,
    pub modifiers: VimKeyModifiers,
}

/// Whether a shortcut fires on an event: it is enabled, its key name names
/// a key, the event is that key, and exactly its modifiers are held.
pub open spec fn shortcut_fires(enabled: bool, key: Seq<char>, mods: VimKeyModifiers, event: KeyEvent) -> bool {
    &&& enabled
    &&& name_to_key(unicode_lower(key)) matches Some(k)
    &&& raw_code(k) == event.code
    &&& modifiers_agree(event, mods)
}

/// Whether a shortcut fires on an event.
pub fn shortcut_pressed(enabled: bool, key: &str, mods: &VimKeyModifiers, event: &KeyEvent) -> (r: bool)
    ensures
        r == shortcut_fires(enabled, key@, *mods, *event),
{
    if !enabled {
        return false;
    }
    match KeyCode::from_name(key) {
        Some(k) => k.as_raw() == event.code && modifiers_match(event, mods),
        None => false,
    }
}

/// Whether `app` is among `apps`.
pub open spec fn listed(apps: Seq<Seq<char>>, app: Seq<char>) -> bool {
    exists|i: int| 0 <= i < apps.len() && apps[i] == app
}

/// The bundle ids' characters.
pub open spec fn app_views(apps: Seq<String>) -> Seq<Seq<char>> {
    apps.map_values(|a: String| a@)
}

/// Whether the frontmost application, if known, is among `apps`.
pub open spec fn frontmost_listed(apps: Seq<String>, frontmost: Option<String>) -> bool {
    match frontmost {
        Some(f) => listed(app_views(apps), f@),
        None => false,
    }
}

/// Whether the frontmost application, if known, is among `apps`.
pub fn is_frontmost_app_listed(apps: &Vec<String>, frontmost: &Option<String>) -> (r: bool)
    ensures
        r == frontmost_listed(apps@, *frontmost),
{
    match frontmost {
        Some(f) => {
            let ghost views = app_views(apps@);
            let n = apps.len();
            let mut i: usize = 0;
            while i < n
                invariant
                    n == apps@.len(),
                    views == app_views(apps@),
                    frontmost_listed(apps@, *frontmost) == listed(views, f@),
                    i <= n,
                    forall|j: int| 0 <= j < i ==> views[j] != f@,
                decreases n - i,
            {
                if str_eq(apps[i].as_str(), f.as_str()) {
                    assert(views[i as int] == f@);
                    return true;
                }
                i = i + 1;
            }
            false
        },
        None => false,
    }
}

/// What the key handler knows when an event arrives.
#[derive(Debug, Clone)]
pub struct RouteContext {
    /// Click mode is showing hints or searching.
    pub click_mode_active: bool,
    /// The settings window is waiting for a key to record.
    pub recording: bool,
    /// The Edit Popup shortcut.
    pub edit_popup: ShortcutConfig,
    /// The click-mode shortcut.
    pub click_mode: ShortcutConfig,
    /// Vim mode is on.
    pub vim_enabled: bool,
    /// The key that toggles vim mode.
    pub vim_key: String,
    pub vim_key_modifiers: VimKeyModifiers,
    /// The current vim mode.
    pub vim_mode: VimMode,
    /// Apps whose bundle ids are excluded from vim mode.
    pub ignored_apps: Vec<String>,
    /// The frontmost app's bundle id, when it could be read.
    pub frontmost_app: Option<String>,
    /// Scroll mode is on.
    pub scroll_enabled: bool,
    /// Scroll mode is on for the frontmost app.
    pub scroll_app_enabled: bool,
    /// Scroll distance per step.
    pub scroll_step: u32,
}

/// Who handles an event.
#[derive(Debug, Clone)]
pub enum KeyRoute {
    /// Click mode is active: hand the event to its key handler.
    ClickMode,
    /// Deliver the recorded key to the settings window and swallow the event.
    Record(RecordedKey),
    /// Open the Edit Popup and swallow the event.
    EditPopupShortcut,
    /// Start click mode and swallow the event.
    ClickModeShortcut,
    /// The vim key in an excluded app while inserting: let the event through.
    VimKeyPassThrough,
    /// Let the vim state handle its key, and swallow the event.
    VimKey,
    /// Hand the event to scroll mode with this step.
    ScrollMode(u32),
    /// Vim mode is off: let the event through.
    PassThrough,
    /// Hand the event to the vim state machine.
    VimInput,
}

/// The kind of a route, without the recorded key.
#[derive(PartialEq, Eq, Structural)]
pub enum RouteKind {
    ClickMode,
    Record,
    EditPopupShortcut,
    ClickModeShortcut,
    VimKeyPassThrough,
    VimKey,
    ScrollMode(u32),
    PassThrough,
    VimInput,
}

/// The kind of a route.
pub open spec fn route_kind(r: KeyRoute) -> RouteKind {
    match r {
        KeyRoute::ClickMode => RouteKind::ClickMode,
        KeyRoute::Record(_) => RouteKind::Record,
        KeyRoute::EditPopupShortcut => RouteKind::EditPopupShortcut,
        KeyRoute::ClickModeShortcut => RouteKind::ClickModeShortcut,
        KeyRoute::VimKeyPassThrough => RouteKind::VimKeyPassThrough,
        KeyRoute::VimKey => RouteKind::VimKey,
        KeyRoute::ScrollMode(s) => RouteKind::ScrollMode(s),
        KeyRoute::PassThrough => RouteKind::PassThrough,
        KeyRoute::VimInput => RouteKind::VimInput,
    }
}

/// Whether the event's code is a key of the table.
pub open spec fn known_key(event: KeyEvent) -> bool {
    exists|k: KeyCode| raw_code(k) == event.code
}

/// Who handles an event, in order: active click mode; on key down, a key
/// being recorded, the Edit Popup shortcut, the click-mode shortcut, the vim
/// key (passed through in an excluded app while inserting); then scroll
/// mode, when it is on for the app and vim is inserting, excluded or off;
/// then the vim state machine, or nobody when vim mode is off.
pub open spec fn route_for(ctx: RouteContext, event: KeyEvent) -> RouteKind {
    let excluded = frontmost_listed(ctx.ignored_apps@, ctx.frontmost_app);
    if ctx.click_mode_active {
        RouteKind::ClickMode
    } else if event.is_key_down && ctx.recording && known_key(event) {
        RouteKind::Record
    } else if event.is_key_down && shortcut_fires(
        ctx.edit_popup.enabled,
        ctx.edit_popup.key@,
        ctx.edit_popup.modifiers,
        event,
    ) {
        RouteKind::EditPopupShortcut
    } else if event.is_key_down && shortcut_fires(
        ctx.click_mode.enabled,
        ctx.click_mode.key@,
        ctx.click_mode.modifiers,
        event,
    ) {
        RouteKind::ClickModeShortcut
    } else if event.is_key_down && shortcut_fires(
        ctx.vim_enabled,
        ctx.vim_key@,
        ctx.vim_key_modifiers,
        event,
    ) {
        if ctx.vim_mode == VimMode::Insert && excluded {
            RouteKind::VimKeyPassThrough
        } else {
            RouteKind::VimKey
        }
    } else if ctx.scroll_enabled && ctx.scroll_app_enabled && (ctx.vim_mode == VimMode::Insert
        || excluded || !ctx.vim_enabled) {
        RouteKind::ScrollMode(ctx.scroll_step)
    } else if !ctx.vim_enabled {
        RouteKind::PassThrough
    } else {
        RouteKind::VimInput
    }
}

/// Decides who handles an event that the Escape double-tap did not take.
pub fn route_key_event(ctx: &RouteContext, event: &KeyEvent) -> (r: KeyRoute)
    ensures
        route_kind(r) == route_for(*ctx, *event),
        r matches KeyRoute::Record(rk) ==> exists|k: KeyCode| {
            &&& raw_code(k) == event.code
            &&& rk.name@ == key_name(k)
            &&& rk.display_name@ == display_name(k)
        } && rk.modifiers == (RecordedModifiers {
            shift: event.modifiers.shift,
            control: event.modifiers.control,
            option: event.modifiers.option,
            command: event.modifiers.command,
        }),
{
    if ctx.click_mode_active {
        return KeyRoute::ClickMode;
    }
    if event.is_key_down {
        match recorded_key_for(event, ctx.recording) {
            Some(rk) => {
                return KeyRoute::Record(rk);
            },
            None => {},
        }
        if shortcut_pressed(ctx.edit_popup.enabled, ctx.edit_popup.key.as_str(), &ctx.edit_popup.modifiers, event) {
            return KeyRoute::EditPopupShortcut;
        }
        if shortcut_pressed(ctx.click_mode.enabled, ctx.click_mode.key.as_str(), &ctx.click_mode.modifiers, event) {
            return KeyRoute::ClickModeShortcut;
        }
        if shortcut_pressed(ctx.vim_enabled, ctx.vim_key.as_str(), &ctx.vim_key_modifiers, event) {
            let excluded = is_frontmost_app_listed(&ctx.ignored_apps, &ctx.frontmost_app);
            if ctx.vim_mode == VimMode::Insert && excluded {
                return KeyRoute::VimKeyPassThrough;
            }
            return KeyRoute::VimKey;
        }
    }
    if ctx.scroll_enabled && ctx.scroll_app_enabled {
        let excluded = is_frontmost_app_listed(&ctx.ignored_apps, &ctx.frontmost_app);
        if ctx.vim_mode == VimMode::Insert || excluded || !ctx.vim_enabled {
            return KeyRoute::ScrollMode(ctx.scroll_step);
        }
    }
    if !ctx.vim_enabled {
        KeyRoute::PassThrough
    } else {
        KeyRoute::VimInput
    }
}

/// While click mode is active, every event goes to it, whatever else the
/// context holds.
pub proof fn lemma_click_mode_takes_all(ctx: RouteContext, event: KeyEvent)
    requires
        ctx.click_mode_active,
    ensures
        route_for(ctx, event) == RouteKind::ClickMode,
{
}

/// Key-up events never fire a shortcut or get recorded.
pub proof fn lemma_key_up_fires_nothing(ctx: RouteContext, event: KeyEvent)
    requires
        !event.is_key_down,
    ensures
        route_for(ctx, event) != RouteKind::Record,
        route_for(ctx, event) != RouteKind::EditPopupShortcut,
        route_for(ctx, event) != RouteKind::ClickModeShortcut,
        route_for(ctx, event) != RouteKind::VimKey,
        route_for(ctx, event) != RouteKind::VimKeyPassThrough,
{
}

/// The stages before scroll mode, for a key down with click mode off: a key
/// being recorded is recorded; otherwise the Edit Popup shortcut wins over
/// the click-mode shortcut, which wins over the vim key; the vim key is
/// let through only while inserting in an ignored app.
pub proof fn lemma_key_down_stages(ctx: RouteContext, event: KeyEvent)
    requires
        !ctx.click_mode_active,
        event.is_key_down,
    ensures
        ctx.recording && known_key(event) ==> route_for(ctx, event) == RouteKind::Record,
        !(ctx.recording && known_key(event)) && shortcut_fires(
            ctx.edit_popup.enabled,
            ctx.edit_popup.key@,
            ctx.edit_popup.modifiers,
            event,
        ) ==> route_for(ctx, event) == RouteKind::EditPopupShortcut,
        !(ctx.recording && known_key(event)) && !shortcut_fires(
            ctx.edit_popup.enabled,
            ctx.edit_popup.key@,
            ctx.edit_popup.modifiers,
            event,
        ) && shortcut_fires(ctx.click_mode.enabled, ctx.click_mode.key@, ctx.click_mode.modifiers, event)
            ==> route_for(ctx, event) == RouteKind::ClickModeShortcut,
        !(ctx.recording && known_key(event)) && !shortcut_fires(
            ctx.edit_popup.enabled,
            ctx.edit_popup.key@,
            ctx.edit_popup.modifiers,
            event,
        ) && !shortcut_fires(ctx.click_mode.enabled, ctx.click_mode.key@, ctx.click_mode.modifiers, event)
            && shortcut_fires(ctx.vim_enabled, ctx.vim_key@, ctx.vim_key_modifiers, event) ==> route_for(
            ctx,
            event,
        ) == (if ctx.vim_mode == VimMode::Insert && frontmost_listed(ctx.ignored_apps@, ctx.frontmost_app) {
            RouteKind::VimKeyPassThrough
        } else {
            RouteKind::VimKey
        }),
{
}

/// Whether no earlier stage claims an event: click mode is off and, for a
/// key down, the key is not being recorded and fires none of the three
/// shortcuts.
pub open spec fn unclaimed(ctx: RouteContext, event: KeyEvent) -> bool {
    &&& !ctx.click_mode_active
    &&& event.is_key_down ==> {
        &&& !(ctx.recording && known_key(event))
        &&& !shortcut_fires(ctx.edit_popup.enabled, ctx.edit_popup.key@, ctx.edit_popup.modifiers, event)
        &&& !shortcut_fires(ctx.click_mode.enabled, ctx.click_mode.key@, ctx.click_mode.modifiers, event)
        &&& !shortcut_fires(ctx.vim_enabled, ctx.vim_key@, ctx.vim_key_modifiers, event)
    }
}

/// Scroll mode gets every event no earlier stage claims when it is on for
/// the frontmost app and vim does not claim that app: the app is one of
/// the ignored apps, vim mode is off, or vim is inserting, whatever the
/// vim mode otherwise is.
pub proof fn lemma_scroll_mode_where_vim_stands_aside(ctx: RouteContext, event: KeyEvent)
    requires
        unclaimed(ctx, event),
        ctx.scroll_enabled,
        ctx.scroll_app_enabled,
        (ctx.frontmost_app matches Some(f) && exists|i: int|
            0 <= i < ctx.ignored_apps@.len() && ctx.ignored_apps@[i]@ == f@) || !ctx.vim_enabled
            || ctx.vim_mode == VimMode::Insert,
    ensures
        route_for(ctx, event) == RouteKind::ScrollMode(ctx.scroll_step),
{
    if let Some(f) = ctx.frontmost_app {
        if exists|i: int| 0 <= i < ctx.ignored_apps@.len() && ctx.ignored_apps@[i]@ == f@ {
            let i = choose|i: int| 0 <= i < ctx.ignored_apps@.len() && ctx.ignored_apps@[i]@ == f@;
            assert(app_views(ctx.ignored_apps@)[i] == f@);
        }
    }
}

/// With vim on and in Normal or Visual mode in an app that is not ignored,
/// every event no earlier stage claims goes to the vim state machine, even
/// with scroll mode on.
pub proof fn lemma_vim_input_where_vim_applies(ctx: RouteContext, event: KeyEvent)
    requires
        unclaimed(ctx, event),
        ctx.vim_enabled,
        ctx.vim_mode != VimMode::Insert,
        ctx.frontmost_app matches Some(f) ==> forall|i: int|
            0 <= i < ctx.ignored_apps@.len() ==> ctx.ignored_apps@[i]@ != f@,
    ensures
        route_for(ctx, event) == RouteKind::VimInput,
{
    if let Some(f) = ctx.frontmost_app {
        if listed(app_views(ctx.ignored_apps@), f@) {
            let i = choose|i: int| 0 <= i < app_views(ctx.ignored_apps@).len() && app_views(ctx.ignored_apps@)[i] == f@;
            assert(ctx.ignored_apps@[i]@ == f@);
        }
    }
}

/// With vim mode off, every event no earlier stage claims and scroll mode
/// does not take passes through untouched.
pub proof fn lemma_vim_off_passes_through(ctx: RouteContext, event: KeyEvent)
    requires
        unclaimed(ctx, event),
        !ctx.vim_enabled,
        !(ctx.scroll_enabled && ctx.scroll_app_enabled),
    ensures
        route_for(ctx, event) == RouteKind::PassThrough,
{
}

/// With vim mode, scroll mode and click mode off and nothing being recorded
/// or bound, every event passes through untouched.
pub proof fn lemma_all_off_passes_through(ctx: RouteContext, event: KeyEvent)
    requires
        !ctx.click_mode_active,
        !ctx.recording,
        !ctx.edit_popup.enabled,
        !ctx.click_mode.enabled,
        !ctx.vim_enabled,
        !ctx.scroll_enabled,
    ensures
        route_for(ctx, event) == RouteKind::PassThrough,
{
}

/// What the key handler does with an event.
#[derive(Debug)]
pub enum KeyOutcome {
    /// An Escape double-tap completed: swallow the event and act on it.
    EscapeDoubleTap,
    /// Click mode took the event and swallowed it, with this effect.
    ClickMode(ClickKeyEffect),
    /// Click mode is off: the route for the caller to carry out.
    Routed(KeyRoute),
}

/// The whole key handler, in its order: the Escape double-tap first; then,
/// while click mode is active, click mode takes and swallows every event;
/// otherwise the event goes where `route_key_event` sends it.
pub fn handle_key_event(
    ctx: &RouteContext,
    event: KeyEvent,
    detector: &mut DoubleTapManager,
    click: &mut ClickModeManager,
    click_uses_escape: bool,
    edit_uses_escape: bool,
) -> (r: KeyOutcome)
    requires
        old(detector).wf(),
    ensures
        final(detector).wf(),
        final(detector).prev_flags() == old(detector).prev_flags(),
        event.code != raw_code(KeyCode::Escape) ==> *final(detector) == *old(detector),
        r is EscapeDoubleTap ==> event.code == raw_code(KeyCode::Escape) && !event.is_key_down && (
        click_uses_escape || edit_uses_escape) && *final(click) == *old(click),
        event.is_key_down || !(click_uses_escape || edit_uses_escape) ==> !(r is EscapeDoubleTap),
        event.code == raw_code(KeyCode::Escape) && !event.is_key_down ==> exists|held: u128|
            {
                &&& final(detector).tracker(DoubleTapKey::Escape) == #[trigger] after_release(
                    old(detector).tracker(DoubleTapKey::Escape),
                    held,
                ).0
                &&& (r is EscapeDoubleTap <==> after_release(
                    old(detector).tracker(DoubleTapKey::Escape),
                    held,
                ).1 && (click_uses_escape || edit_uses_escape))
            },
        event.code == raw_code(KeyCode::Escape) && event.is_key_down ==> exists|since: u128|
            final(detector).tracker(DoubleTapKey::Escape) == after_press(
                old(detector).tracker(DoubleTapKey::Escape),
                since,
            ),
        !(r is EscapeDoubleTap) && !(old(click).cur_state() is Inactive) ==> (r matches KeyOutcome::ClickMode(
            effect,
        ) && {
            &&& !event.is_key_down || (forall|k: KeyCode| raw_code(k) != event.code) ==> effect is Nothing
                && final(click).cur_state() == old(click).cur_state() && final(click).targets()
                == old(click).targets() && final(click).action() == old(click).action()
            &&& forall|k: KeyCode|
                event.is_key_down && raw_code(k) == event.code ==> click_key_post(
                    *old(click),
                    *final(click),
                    event,
                    k,
                    effect,
                )
        }),
        !(r is EscapeDoubleTap) && old(click).cur_state() is Inactive ==> (r matches KeyOutcome::Routed(
            route,
        ) && route_kind(route) == route_for(*ctx, event)) && *final(click) == *old(click),
{
    if escape_double_tap(&event, detector, click_uses_escape, edit_uses_escape).is_some() {
        return KeyOutcome::EscapeDoubleTap;
    }
    if click.is_active() {
        let (_, effect) = handle_click_mode_key(event, click);
        return KeyOutcome::ClickMode(effect);
    }
    KeyOutcome::Routed(route_key_event(ctx, &event))
}

} // verus!
