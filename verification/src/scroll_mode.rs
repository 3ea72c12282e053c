//! Routing of key events in scroll mode (Vimium-style navigation).
//!
//! The scroll-mode state machine that decides what each key does belongs to
//! the caller; this module decides which events reach it and what becomes of
//! the event afterwards.

use vstd::prelude::*;

use crate::keycode::{KeyCode, KeyEvent, raw_code};

verus! {

/// Whether scroll mode consumed a key.
#[derive(Debug, Clone, Copy, PartialEq, Eq, Structural)]
pub enum ScrollResult {
    /// The key was handled by scroll mode and is suppressed.
    Handled,
    /// The key is not a scroll command and passes through.
    PassThrough,
}

/// Keys that scroll mode may consume, whose key-up is therefore suppressed.
pub open spec fn scroll_key(k: KeyCode, shift: bool) -> bool {
    match k {
        KeyCode::G | KeyCode::R | KeyCode::H | KeyCode::L => true,
        KeyCode::J | KeyCode::K | KeyCode::D | KeyCode::U | KeyCode::Slash => !shift,
        _ => false,
    }
}

/// The scroll keys whose key-up scroll mode swallows: h, l, g and r with or
/// without Shift, and j, k, d, u and / without Shift; with Shift, j, k, d,
/// u and / are not scroll keys, nor is any other key.
pub proof fn lemma_scroll_keys(k: KeyCode, shift: bool)
    ensures
        (k == KeyCode::H || k == KeyCode::L || k == KeyCode::G || k == KeyCode::R) ==> scroll_key(k, shift),
        (k == KeyCode::J || k == KeyCode::K || k == KeyCode::D || k == KeyCode::U || k == KeyCode::Slash)
            ==> scroll_key(k, shift) == !shift,
        !(k == KeyCode::H || k == KeyCode::L || k == KeyCode::G || k == KeyCode::R || k == KeyCode::J || k
            == KeyCode::K || k == KeyCode::D || k == KeyCode::U || k == KeyCode::Slash) ==> !scroll_key(k, shift),
{
}

fn is_scroll_key(keycode: KeyCode, shift: bool) -> (r: bool)
    ensures
        r == scroll_key(keycode, shift),
{
    match keycode {
        KeyCode::G | KeyCode::R | KeyCode::H | KeyCode::L => true,
        KeyCode::J | KeyCode::K | KeyCode::D | KeyCode::U | KeyCode::Slash => !shift,
        _ => false,
    }
}

/// What becomes of a key event in scroll mode.
#[derive(Debug, Clone, Copy, PartialEq, Eq, Structural)]
pub enum ScrollKeyAction {
    /// Swallow the event; the scroll state is not consulted.
    Suppress,
    /// Let the event through; the scroll state is not consulted.
    PassThrough,
    /// Hand the key, its modifiers and the scroll step to the scroll state,
    /// then finish with `scroll_key_outcome`.
    Process { keycode: KeyCode, shift: bool, control: bool, option: bool, command: bool, scroll_step: u32 },
}

/// What scroll mode does with an event: a key-up of a scroll key is
/// swallowed and any other key-up let through; a key-down of a key outside
/// the table is let through; any other key-down goes to the scroll state.
pub open spec fn scroll_plan(event: KeyEvent, scroll_step: u32) -> ScrollKeyAction {
    if !event.is_key_down {
        if exists|k: KeyCode| raw_code(k) == event.code && scroll_key(k, event.modifiers.shift) {
            ScrollKeyAction::Suppress
        } else {
            ScrollKeyAction::PassThrough
        }
    } else if exists|k: KeyCode| raw_code(k) == event.code {
        ScrollKeyAction::Process {
            keycode: choose|k: KeyCode| raw_code(k) == event.code,
            shift: event.modifiers.shift,
            control: event.modifiers.control,
            option: event.modifiers.option,
            command: event.modifiers.command,
            scroll_step,
        }
    } else {
        ScrollKeyAction::PassThrough
    }
}

/// Decides what becomes of a key event in scroll mode. Only a key-down of
/// a known key reaches the scroll state.
pub fn handle_scroll_mode_key(event: KeyEvent, scroll_step: u32) -> (r: ScrollKeyAction)
    ensures
        r == scroll_plan(event, scroll_step),
{
    proof {
        crate::keycode::lemma_raw_code_injective_all();
    }
    if !event.is_key_down {
        if let Some(keycode) = KeyCode::from_raw(event.code) {
            if is_scroll_key(keycode, event.modifiers.shift) {
                return ScrollKeyAction::Suppress;
            }
        }
        return ScrollKeyAction::PassThrough;
    }
    let keycode = match KeyCode::from_raw(event.code) {
        Some(k) => k,
        None => return ScrollKeyAction::PassThrough,
    };
    ScrollKeyAction::Process {
        keycode,
        shift: event.modifiers.shift,
        control: event.modifiers.control,
        option: event.modifiers.option,
        command: event.modifiers.command,
        scroll_step,
    }
}

/// The event after the scroll state answered: swallowed when it handled
/// the key, let through otherwise.
pub fn scroll_key_outcome(event: KeyEvent, result: ScrollResult) -> (r: Option<KeyEvent>)
    ensures
        result == ScrollResult::Handled ==> r is None,
        result == ScrollResult::PassThrough ==> r == Some(event),
{
    match result {
        ScrollResult::Handled => None,
        ScrollResult::PassThrough => Some(event),
    }
}

} // verus!
