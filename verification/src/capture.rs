//! The event tap's bookkeeping and its per-event decision.
//!
//! The capture keeps the three callbacks (keys, mouse clicks, scrolling) and
//! whether capture is running. For each event the tap delivers it decides
//! which callback sees it and whether the event is kept or dropped; the tap
//! itself, its run loop and its thread belong to the caller.

use vstd::prelude::*;

use crate::inject::INJECTED_EVENT_MARKER;
use crate::keycode::{modifiers_of, KeyEvent, Modifiers};

verus! {

/// A mouse click seen by the tap.
#[derive(Debug, Clone, Copy, PartialEq, Eq, Structural)]
pub struct MouseClickEvent {
    pub is_left_click: bool,
    pub is_right_click: bool,
}

/// The kinds of event the tap delivers.
#[derive(Debug, Clone, Copy, PartialEq, Eq, Structural)]
pub enum TapEventKind {
    KeyDown,
    KeyUp,
    FlagsChanged,
    LeftMouseDown,
    RightMouseDown,
    ScrollWheel,
    /// The system disabled the tap because a callback took too long.
    TapDisabledByTimeout,
    /// The system disabled the tap on user input.
    TapDisabledByUserInput,
    /// Any other event type.
    Other,
}

/// What becomes of an event.
#[derive(Debug, Clone, Copy, PartialEq, Eq, Structural)]
pub enum TapVerdict {
    /// Let the event through as it came.
    Keep,
    /// Let the key event through as the key callback returned it.
    Pass(KeyEvent),
    /// Swallow the event.
    Drop,
    /// The tap was disabled: let the event through and re-enable the tap.
    ReEnable,
}

/// What launch does about capture.
#[derive(Debug, Clone, Copy, PartialEq, Eq, Structural)]
pub enum LaunchCapture {
    /// Start the event tap.
    StartTap,
    /// Capture already runs; nothing to start.
    AlreadyRunning,
    /// Accessibility access is missing: ask for it instead.
    RequestPermission,
}

/// Keyboard capture state: the callbacks and whether capture runs.
pub struct KeyboardCapture<K, M, S> {
    callback: Option<K>,
    mouse_callback: Option<M>,
    scroll_callback: Option<S>,
    running: bool,
}

/// The key event a key-down or key-up tap event carries.
pub open spec fn key_event_of(kind: TapEventKind, keycode: u16, flags: u64) -> KeyEvent {
    KeyEvent { code: keycode, modifiers: modifiers_of(flags), is_key_down: kind == TapEventKind::KeyDown }
}

/// The click a mouse-down tap event reports.
pub open spec fn click_of(kind: TapEventKind) -> MouseClickEvent {
    MouseClickEvent {
        is_left_click: kind == TapEventKind::LeftMouseDown,
        is_right_click: kind == TapEventKind::RightMouseDown,
    }
}

/// Whether an event reaches the key callback: not a tap notification, a
/// mouse or scroll event, one of our own injected events, or a modifier
/// change.
pub open spec fn reaches_key_callback(kind: TapEventKind, user_data: i64) -> bool {
    &&& kind != TapEventKind::TapDisabledByTimeout
    &&& kind != TapEventKind::TapDisabledByUserInput
    &&& kind != TapEventKind::LeftMouseDown
    &&& kind != TapEventKind::RightMouseDown
    &&& kind != TapEventKind::ScrollWheel
    &&& user_data != INJECTED_EVENT_MARKER
    &&& kind != TapEventKind::FlagsChanged
}

impl<K, M, S> KeyboardCapture<K, M, S> {
    /// Whether capture is running.
    pub closed spec fn running(&self) -> bool {
        self.running
    }

    /// Whether a key callback is set.
    pub closed spec fn has_callback(&self) -> bool {
        self.callback is Some
    }

    /// The key callback, when set.
    pub closed spec fn key_callback(&self) -> K
        recommends
            self.has_callback(),
    {
        self.callback->0
    }

    /// Whether a mouse callback is set.
    pub closed spec fn has_mouse_callback(&self) -> bool {
        self.mouse_callback is Some
    }

    /// The mouse callback, when set.
    pub closed spec fn mouse_fn(&self) -> M
        recommends
            self.has_mouse_callback(),
    {
        self.mouse_callback->0
    }

    /// Whether a scroll callback is set.
    pub closed spec fn has_scroll_callback(&self) -> bool {
        self.scroll_callback is Some
    }

    /// The scroll callback, when set.
    pub closed spec fn scroll_fn(&self) -> S
        recommends
            self.has_scroll_callback(),
    {
        self.scroll_callback->0
    }

    /// Capture that is stopped and has no callbacks.
    pub fn new() -> (r: Self)
        ensures
            !r.running(),
            !r.has_callback(),
            !r.has_mouse_callback(),
            !r.has_scroll_callback(),
    {
        KeyboardCapture { callback: None, mouse_callback: None, scroll_callback: None, running: false }
    }

    /// Sets the key callback: it returns the event to let through, possibly
    /// changed, or `None` to swallow it.
    pub fn set_callback(&mut self, callback: K)
        ensures
            final(self).has_callback(),
            final(self).key_callback() == callback,
            final(self).running() == old(self).running(),
            final(self).has_mouse_callback() == old(self).has_mouse_callback(),
            final(self).has_mouse_callback() ==> final(self).mouse_fn() == old(self).mouse_fn(),
            final(self).has_scroll_callback() == old(self).has_scroll_callback(),
            final(self).has_scroll_callback() ==> final(self).scroll_fn() == old(self).scroll_fn(),
    {
        self.callback = Some(callback);
    }

    /// Sets the mouse-click callback.
    pub fn set_mouse_callback(&mut self, callback: M)
        ensures
            final(self).has_mouse_callback(),
            final(self).mouse_fn() == callback,
            final(self).running() == old(self).running(),
            final(self).has_callback() == old(self).has_callback(),
            final(self).has_callback() ==> final(self).key_callback() == old(self).key_callback(),
            final(self).has_scroll_callback() == old(self).has_scroll_callback(),
            final(self).has_scroll_callback() ==> final(self).scroll_fn() == old(self).scroll_fn(),
    {
        self.mouse_callback = Some(callback);
    }

    /// Sets the scroll callback.
    pub fn set_scroll_callback(&mut self, callback: S)
        ensures
            final(self).has_scroll_callback(),
            final(self).scroll_fn() == callback,
            final(self).running() == old(self).running(),
            final(self).has_callback() == old(self).has_callback(),
            final(self).has_callback() ==> final(self).key_callback() == old(self).key_callback(),
            final(self).has_mouse_callback() == old(self).has_mouse_callback(),
            final(self).has_mouse_callback() ==> final(self).mouse_fn() == old(self).mouse_fn(),
    {
        self.scroll_callback = Some(callback);
    }

    /// Marks capture as running. Returns whether the tap must be started:
    /// `false` when capture was already running.
    pub fn start(&mut self) -> (must_start: bool)
        ensures
            final(self).running(),
            must_start == !old(self).running(),
            final(self).has_callback() == old(self).has_callback(),
            final(self).has_callback() ==> final(self).key_callback() == old(self).key_callback(),
            final(self).has_mouse_callback() == old(self).has_mouse_callback(),
            final(self).has_mouse_callback() ==> final(self).mouse_fn() == old(self).mouse_fn(),
            final(self).has_scroll_callback() == old(self).has_scroll_callback(),
            final(self).has_scroll_callback() ==> final(self).scroll_fn() == old(self).scroll_fn(),
    {
        if self.running {
            return false;
        }
        self.running = true;
        true
    }

    /// What launch does about capture, given whether accessibility access
    /// is granted: with access, capture is marked running and the tap is
    /// started unless it already runs; without it, nothing changes and
    /// access must be requested.
    pub fn start_if_permitted(&mut self, permitted: bool) -> (r: LaunchCapture)
        ensures
            !permitted ==> r == LaunchCapture::RequestPermission && *final(self) == *old(self),
            permitted ==> final(self).running() && r == (if old(self).running() {
                LaunchCapture::AlreadyRunning
            } else {
                LaunchCapture::StartTap
            }),
            final(self).has_callback() == old(self).has_callback(),
            final(self).has_callback() ==> final(self).key_callback() == old(self).key_callback(),
            final(self).has_mouse_callback() == old(self).has_mouse_callback(),
            final(self).has_mouse_callback() ==> final(self).mouse_fn() == old(self).mouse_fn(),
            final(self).has_scroll_callback() == old(self).has_scroll_callback(),
            final(self).has_scroll_callback() ==> final(self).scroll_fn() == old(self).scroll_fn(),
    {
        if !permitted {
            return LaunchCapture::RequestPermission;
        }
        if self.start() {
            LaunchCapture::StartTap
        } else {
            LaunchCapture::AlreadyRunning
        }
    }

    /// Stops capturing; the tap's loop ends when it next looks.
    pub fn stop(&mut self)
        ensures
            !final(self).running(),
            final(self).has_callback() == old(self).has_callback(),
            final(self).has_callback() ==> final(self).key_callback() == old(self).key_callback(),
            final(self).has_mouse_callback() == old(self).has_mouse_callback(),
            final(self).has_mouse_callback() ==> final(self).mouse_fn() == old(self).mouse_fn(),
            final(self).has_scroll_callback() == old(self).has_scroll_callback(),
            final(self).has_scroll_callback() ==> final(self).scroll_fn() == old(self).scroll_fn(),
    {
        self.running = false;
    }

    /// Whether capture is running.
    pub fn is_running(&self) -> (r: bool)
        ensures
            r == self.running(),
    {
        self.running
    }
}

impl<K, M, S> KeyboardCapture<K, M, S> where
    K: Fn(KeyEvent) -> Option<KeyEvent>,
    M: Fn(MouseClickEvent) -> bool,
    S: Fn(),
 {
    /// Handles one event from the tap. A disabled tap is re-enabled; mouse
    /// clicks and scrolling are shown to their callbacks and always kept;
    /// our own injected events and modifier changes are kept; any other
    /// event is a key event, dropped when the key callback returns `None`,
    /// passed on as the event the callback returned otherwise, and kept
    /// when no callback is set.
    pub fn handle_tap_event(&self, kind: TapEventKind, user_data: i64, keycode: u16, flags: u64) -> (r:
        TapVerdict)
        requires
            self.has_callback() ==> forall|e: KeyEvent| #[trigger] self.key_callback().requires((e,)),
            self.has_mouse_callback() ==> forall|m: MouseClickEvent| #[trigger] self.mouse_fn().requires((m,)),
            self.has_scroll_callback() ==> self.scroll_fn().requires(()),
        ensures
            (kind == TapEventKind::TapDisabledByTimeout || kind == TapEventKind::TapDisabledByUserInput)
                <==> r == TapVerdict::ReEnable,
            !reaches_key_callback(kind, user_data) && r != TapVerdict::ReEnable ==> r == TapVerdict::Keep,
            reaches_key_callback(kind, user_data) && !self.has_callback() ==> r == TapVerdict::Keep,
            reaches_key_callback(kind, user_data) && self.has_callback() ==> exists|out: Option<KeyEvent>|
                {
                    &&& #[trigger] self.key_callback().ensures((key_event_of(kind, keycode, flags),), out)
                    &&& (r == TapVerdict::Drop <==> out is None)
                    &&& (out matches Some(e2) ==> r == TapVerdict::Pass(e2))
                },
            (kind == TapEventKind::LeftMouseDown || kind == TapEventKind::RightMouseDown)
                && self.has_mouse_callback() ==> exists|answer: bool|
                #[trigger] self.mouse_fn().ensures((click_of(kind),), answer),
            kind == TapEventKind::ScrollWheel && self.has_scroll_callback() ==> self.scroll_fn().ensures(
                (),
                (),
            ),
    {
        if kind == TapEventKind::TapDisabledByTimeout || kind == TapEventKind::TapDisabledByUserInput {
            return TapVerdict::ReEnable;
        }
        if kind == TapEventKind::LeftMouseDown || kind == TapEventKind::RightMouseDown {
            let click = MouseClickEvent {
                is_left_click: kind == TapEventKind::LeftMouseDown,
                is_right_click: kind == TapEventKind::RightMouseDown,
            };
            match &self.mouse_callback {
                Some(cb) => {
                    assert(self.mouse_fn().requires((click,)));
                    let answer = cb(click);
                    assert(self.mouse_fn().ensures((click_of(kind),), answer));
                },
                None => {},
            }
            return TapVerdict::Keep;
        }
        if kind == TapEventKind::ScrollWheel {
            match &self.scroll_callback {
                Some(cb) => {
                    cb();
                },
                None => {},
            }
            return TapVerdict::Keep;
        }
        if user_data == INJECTED_EVENT_MARKER {
            return TapVerdict::Keep;
        }
        if kind == TapEventKind::FlagsChanged {
            return TapVerdict::Keep;
        }
        let event = KeyEvent {
            code: keycode,
            modifiers: Modifiers::from_cg_flags(flags),
            is_key_down: kind == TapEventKind::KeyDown,
        };
        match &self.callback {
            Some(cb) => {
                assert(self.key_callback().requires((event,)));
                let out = cb(event);
                assert(event == key_event_of(kind, keycode, flags));
                assert(self.key_callback().ensures((key_event_of(kind, keycode, flags),), out));
                match out {
                    Some(e2) => TapVerdict::Pass(e2),
                    None => TapVerdict::Drop,
                }
            },
            None => TapVerdict::Keep,
        }
    }
}

impl<K, M, S> Default for KeyboardCapture<K, M, S> {
    fn default() -> (r: Self)
        ensures
            !r.running(),
            !r.has_callback(),
            !r.has_mouse_callback(),
            !r.has_scroll_callback(),
    {
        Self::new()
    }
}

} // verus!
