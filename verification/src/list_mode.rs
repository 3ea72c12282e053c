//! List Mode: Vim-style hjkl navigation for list views.
//!
//! Unlike scroll mode, list mode sends arrow keys that move the selection in
//! apps such as Finder and System Settings. Keys with Control, Option or
//! Command pass through; Shift selects the variant of a command.

use vstd::prelude::*;

use crate::inject::{
    ArrowDirection, SyntheticEvent, arrow_press, command_mods, history_back, history_forward,
    inject_return, key_press, list_down, list_go_bottom, list_go_top, list_left, list_right,
    list_select_down, list_select_up, list_up, open_find, select_mods,
};
use crate::keycode::{KeyCode, KeyEvent, Modifiers, no_modifiers, raw_code};

verus! {

/// Whether list mode consumed a key.
#[derive(Debug, Clone, Copy, PartialEq, Eq, Structural)]
pub enum ListResult {
    /// The key was handled by list mode and is suppressed.
    Handled,
    /// The key is not a list command and passes through.
    PassThrough,
}

/// List mode state: whether a `g` is waiting for a second `g`.
#[derive(Debug)]
pub struct ListModeState {
    pending_g: bool,
}

/// The events a list command sends, the state after it, and whether the key
/// was consumed, for a key with the given modifiers while `pending_g` holds.
pub open spec fn list_step(
    pending_g: bool,
    k: KeyCode,
    shift: bool,
    control: bool,
    option: bool,
    command: bool,
) -> (bool, ListResult, Seq<SyntheticEvent>) {
    if control || option || command {
        (false, ListResult::PassThrough, Seq::empty())
    } else if pending_g {
        if k == KeyCode::G && !shift {
            (false, ListResult::Handled, key_press(KeyCode::Home, no_modifiers()))
        } else {
            (false, ListResult::PassThrough, Seq::empty())
        }
    } else {
        match k {
            KeyCode::H => if !shift {
                (false, ListResult::Handled, arrow_press(ArrowDirection::Left, no_modifiers()))
            } else {
                (false, ListResult::Handled, key_press(KeyCode::LeftBracket, command_mods(false)))
            },
            KeyCode::J => if !shift {
                (false, ListResult::Handled, arrow_press(ArrowDirection::Down, no_modifiers()))
            } else {
                (false, ListResult::Handled, arrow_press(ArrowDirection::Down, select_mods(true)))
            },
            KeyCode::K => if !shift {
                (false, ListResult::Handled, arrow_press(ArrowDirection::Up, no_modifiers()))
            } else {
                (false, ListResult::Handled, arrow_press(ArrowDirection::Up, select_mods(true)))
            },
            KeyCode::L => if !shift {
                (false, ListResult::Handled, arrow_press(ArrowDirection::Right, no_modifiers()))
            } else {
                (false, ListResult::Handled, key_press(KeyCode::RightBracket, command_mods(false)))
            },
            KeyCode::G => if shift {
                (false, ListResult::Handled, key_press(KeyCode::End, no_modifiers()))
            } else {
                (true, ListResult::Handled, Seq::empty())
            },
            KeyCode::O => if !shift {
                (false, ListResult::Handled, key_press(KeyCode::Return, no_modifiers()))
            } else {
                (false, ListResult::PassThrough, Seq::empty())
            },
            KeyCode::Slash => if !shift {
                (false, ListResult::Handled, key_press(KeyCode::F, command_mods(false)))
            } else {
                (false, ListResult::PassThrough, Seq::empty())
            },
            _ => (false, ListResult::PassThrough, Seq::empty()),
        }
    }
}

impl ListModeState {
    /// Whether a `g` is waiting for a second `g`.
    pub closed spec fn pending(&self) -> bool {
        self.pending_g
    }

    /// A state with nothing pending.
    pub fn new() -> (r: Self)
        ensures
            !r.pending(),
    {
        ListModeState { pending_g: false }
    }

    /// Forget a pending `g`.
    pub fn reset(&mut self)
        ensures
            !final(self).pending(),
    {
        self.pending_g = false;
    }

    /// Process a key press: returns whether it was consumed and the events
    /// the command sends. `gg` goes to the top, `G` to the bottom, `hjkl`
    /// move, `J`/`K` extend the selection, `H`/`L` go back and forward, `o`
    /// opens and `/` searches.
    pub fn process_key(
        &mut self,
        keycode: KeyCode,
        shift: bool,
        control: bool,
        option: bool,
        command: bool,
    ) -> (r: (ListResult, Vec<SyntheticEvent>))
        ensures
            (final(self).pending(), r.0, r.1@) == list_step(
                old(self).pending(),
                keycode,
                shift,
                control,
                option,
                command,
            ),
    {
        if control || option || command {
            self.reset();
            return (ListResult::PassThrough, Vec::new());
        }
        if self.pending_g {
            self.pending_g = false;
            if keycode == KeyCode::G && !shift {
                return (ListResult::Handled, list_go_top());
            }
            return (ListResult::PassThrough, Vec::new());
        }
        match keycode {
            KeyCode::H => if !shift {
                (ListResult::Handled, list_left())
            } else {
                (ListResult::Handled, history_back())
            },
            KeyCode::J => if !shift {
                (ListResult::Handled, list_down())
            } else {
                (ListResult::Handled, list_select_down())
            },
            KeyCode::K => if !shift {
                (ListResult::Handled, list_up())
            } else {
                (ListResult::Handled, list_select_up())
            },
            KeyCode::L => if !shift {
                (ListResult::Handled, list_right())
            } else {
                (ListResult::Handled, history_forward())
            },
            KeyCode::G => if shift {
                (ListResult::Handled, list_go_bottom())
            } else {
                self.pending_g = true;
                (ListResult::Handled, Vec::new())
            },
            KeyCode::O => if !shift {
                (ListResult::Handled, inject_return())
            } else {
                (ListResult::PassThrough, Vec::new())
            },
            KeyCode::Slash => if !shift {
                (ListResult::Handled, open_find())
            } else {
                (ListResult::PassThrough, Vec::new())
            },
            _ => (ListResult::PassThrough, Vec::new()),
        }
    }
}

impl Default for ListModeState {
    fn default() -> (r: Self)
        ensures
            !r.pending(),
    {
        ListModeState::new()
    }
}

/// A fresh list-mode state, for the caller to share between threads.
pub fn create_list_state() -> (r: ListModeState)
    ensures
        !r.pending(),
{
    ListModeState::new()
}

/// Keys that list mode may consume, whose key-up is therefore suppressed.
pub open spec fn list_key(k: KeyCode, shift: bool) -> bool {
    match k {
        KeyCode::H | KeyCode::J | KeyCode::K | KeyCode::L | KeyCode::G => true,
        KeyCode::O | KeyCode::Slash => !shift,
        _ => false,
    }
}

fn is_list_key(keycode: KeyCode, shift: bool) -> (r: bool)
    ensures
        r == list_key(keycode, shift),
{
    match keycode {
        KeyCode::H | KeyCode::J | KeyCode::K | KeyCode::L | KeyCode::G => true,
        KeyCode::O | KeyCode::Slash => !shift,
        _ => false,
    }
}

/// Handle a key event in list mode: `None` suppresses the key, `Some`
/// passes it through; the events are the list command to send. Key-up of a
/// list key is suppressed; key-down goes through `process_key`.
pub fn handle_list_mode_key(event: KeyEvent, list_state: &mut ListModeState) -> (r: (
    Option<KeyEvent>,
    Vec<SyntheticEvent>,
))
    ensures
        !event.is_key_down ==> r.1@.len() == 0 && final(list_state).pending() == old(
            list_state,
        ).pending() && (if exists|k: KeyCode|
            raw_code(k) == event.code && list_key(k, event.modifiers.shift) {
            r.0 is None
        } else {
            r.0 == Some(event)
        }),
        event.is_key_down && (forall|k: KeyCode| raw_code(k) != event.code) ==> r.0 == Some(event)
            && r.1@.len() == 0 && final(list_state).pending() == old(list_state).pending(),
        forall|k: KeyCode|
            event.is_key_down && raw_code(k) == event.code ==> {
                let step = list_step(
                    old(list_state).pending(),
                    k,
                    event.modifiers.shift,
                    event.modifiers.control,
                    event.modifiers.option,
                    event.modifiers.command,
                );
                &&& final(list_state).pending() == step.0
                &&& r.1@ == step.2
                &&& r.0 == (if step.1 == ListResult::Handled {
                    None
                } else {
                    Some(event)
                })
            },
{
    if !event.is_key_down {
        if let Some(keycode) = KeyCode::from_raw(event.code) {
            if is_list_key(keycode, event.modifiers.shift) {
                return (None, Vec::new());
            }
        }
        return (Some(event), Vec::new());
    }
    let keycode = match KeyCode::from_raw(event.code) {
        Some(k) => k,
        None => return (Some(event), Vec::new()),
    };
    proof {
        crate::keycode::lemma_raw_code_injective_all();
    }
    let (result, events) = list_state.process_key(
        keycode,
        event.modifiers.shift,
        event.modifiers.control,
        event.modifiers.option,
        event.modifiers.command,
    );
    match result {
        ListResult::Handled => (None, events),
        ListResult::PassThrough => (Some(event), events),
    }
}

/// In list mode Shift+H goes back in history and Shift+L forward, as a
/// browser does: from any state without a pending `g`, Shift+H sends one
/// press of `[` with exactly Command held, Shift+L one press of `]` with
/// exactly Command held, both consume the key, and the two differ only in
/// the bracket pressed.
pub proof fn lemma_list_history_keys(pending_g: bool)
    requires
        !pending_g,
    ensures
        list_step(pending_g, KeyCode::H, true, false, false, false) == (
            false,
            ListResult::Handled,
            seq![
                SyntheticEvent::Key { keycode: KeyCode::LeftBracket, key_down: true, modifiers: Modifiers { shift: false, control: false, option: false, command: true, caps_lock: false } },
                SyntheticEvent::Key { keycode: KeyCode::LeftBracket, key_down: false, modifiers: Modifiers { shift: false, control: false, option: false, command: true, caps_lock: false } },
            ],
        ),
        list_step(pending_g, KeyCode::L, true, false, false, false) == (
            false,
            ListResult::Handled,
            seq![
                SyntheticEvent::Key { keycode: KeyCode::RightBracket, key_down: true, modifiers: Modifiers { shift: false, control: false, option: false, command: true, caps_lock: false } },
                SyntheticEvent::Key { keycode: KeyCode::RightBracket, key_down: false, modifiers: Modifiers { shift: false, control: false, option: false, command: true, caps_lock: false } },
            ],
        ),
{
    assert(key_press(KeyCode::LeftBracket, command_mods(false)) =~= seq![
        SyntheticEvent::Key { keycode: KeyCode::LeftBracket, key_down: true, modifiers: Modifiers { shift: false, control: false, option: false, command: true, caps_lock: false } },
        SyntheticEvent::Key { keycode: KeyCode::LeftBracket, key_down: false, modifiers: Modifiers { shift: false, control: false, option: false, command: true, caps_lock: false } },
    ]);
    assert(key_press(KeyCode::RightBracket, command_mods(false)) =~= seq![
        SyntheticEvent::Key { keycode: KeyCode::RightBracket, key_down: true, modifiers: Modifiers { shift: false, control: false, option: false, command: true, caps_lock: false } },
        SyntheticEvent::Key { keycode: KeyCode::RightBracket, key_down: false, modifiers: Modifiers { shift: false, control: false, option: false, command: true, caps_lock: false } },
    ]);
}

/// The one press a list command sends: the key down and then up, with the
/// given modifiers.
pub open spec fn one_press(k: KeyCode, shift: bool, command: bool) -> Seq<SyntheticEvent> {
    let m = Modifiers { shift, control: false, option: false, command, caps_lock: false };
    seq![
        SyntheticEvent::Key { keycode: k, key_down: true, modifiers: m },
        SyntheticEvent::Key { keycode: k, key_down: false, modifiers: m },
    ]
}

/// What each list key does from a state without a pending `g`, held
/// without Control, Option or Command: h, j, k, l press the Left, Down, Up
/// and Right arrows; J and K press Down and Up with Shift, extending the
/// selection; G presses End; o presses Return; / presses Command+F; g
/// sends nothing and waits, and a second g presses Home. Each of these
/// consumes the key.
pub proof fn lemma_list_keys(pending_g: bool)
    requires
        !pending_g,
    ensures
        list_step(pending_g, KeyCode::H, false, false, false, false) == (false, ListResult::Handled, one_press(KeyCode::Left, false, false)),
        list_step(pending_g, KeyCode::J, false, false, false, false) == (false, ListResult::Handled, one_press(KeyCode::Down, false, false)),
        list_step(pending_g, KeyCode::K, false, false, false, false) == (false, ListResult::Handled, one_press(KeyCode::Up, false, false)),
        list_step(pending_g, KeyCode::L, false, false, false, false) == (false, ListResult::Handled, one_press(KeyCode::Right, false, false)),
        list_step(pending_g, KeyCode::J, true, false, false, false) == (false, ListResult::Handled, one_press(KeyCode::Down, true, false)),
        list_step(pending_g, KeyCode::K, true, false, false, false) == (false, ListResult::Handled, one_press(KeyCode::Up, true, false)),
        list_step(pending_g, KeyCode::G, true, false, false, false) == (false, ListResult::Handled, one_press(KeyCode::End, false, false)),
        list_step(pending_g, KeyCode::O, false, false, false, false) == (false, ListResult::Handled, one_press(KeyCode::Return, false, false)),
        list_step(pending_g, KeyCode::Slash, false, false, false, false) == (false, ListResult::Handled, one_press(KeyCode::F, false, true)),
        list_step(pending_g, KeyCode::G, false, false, false, false) == (true, ListResult::Handled, Seq::<SyntheticEvent>::empty()),
        list_step(true, KeyCode::G, false, false, false, false) == (false, ListResult::Handled, one_press(KeyCode::Home, false, false)),
{
    assert(arrow_press(ArrowDirection::Left, no_modifiers()) =~= one_press(KeyCode::Left, false, false));
    assert(arrow_press(ArrowDirection::Down, no_modifiers()) =~= one_press(KeyCode::Down, false, false));
    assert(arrow_press(ArrowDirection::Up, no_modifiers()) =~= one_press(KeyCode::Up, false, false));
    assert(arrow_press(ArrowDirection::Right, no_modifiers()) =~= one_press(KeyCode::Right, false, false));
    assert(arrow_press(ArrowDirection::Down, select_mods(true)) =~= one_press(KeyCode::Down, true, false));
    assert(arrow_press(ArrowDirection::Up, select_mods(true)) =~= one_press(KeyCode::Up, true, false));
    assert(key_press(KeyCode::End, no_modifiers()) =~= one_press(KeyCode::End, false, false));
    assert(key_press(KeyCode::Return, no_modifiers()) =~= one_press(KeyCode::Return, false, false));
    assert(key_press(KeyCode::F, command_mods(false)) =~= one_press(KeyCode::F, false, true));
    assert(key_press(KeyCode::Home, no_modifiers()) =~= one_press(KeyCode::Home, false, false));
}

/// Control, Option or Command held makes every key pass through list mode
/// untouched, whatever the state, and forgets a pending `g`; after a
/// pending `g`, any key but a plain g passes through too.
pub proof fn lemma_list_pass_through(pending_g: bool, k: KeyCode, shift: bool, control: bool, option: bool, command: bool)
    ensures
        control || option || command ==> list_step(pending_g, k, shift, control, option, command) == (
            false,
            ListResult::PassThrough,
            Seq::<SyntheticEvent>::empty(),
        ),
        pending_g && !(k == KeyCode::G && !shift) ==> list_step(pending_g, k, shift, control, option, command) == (
            false,
            ListResult::PassThrough,
            Seq::<SyntheticEvent>::empty(),
        ),
{
}

} // verus!
