//! The synthetic input that each editing, scrolling and list command sends.
//!
//! Every command here computes the exact sequence of events to post; the
//! application posts them in order through the system event tap and stops at
//! the first one that fails.

use vstd::prelude::*;

use crate::keycode::{KeyCode, Modifiers, no_modifiers};

verus! {

/// Value written into the event's user-data field to mark events that ovim
/// posted itself, so that the event tap lets them through unprocessed.
pub const INJECTED_EVENT_MARKER: i64 = 0x54495649;

/// One event for the application to post.
#[derive(Debug, Clone, Copy, PartialEq, Eq, Structural)]
pub enum SyntheticEvent {
    /// A key going down or up with the given modifiers held.
    Key { keycode: KeyCode, key_down: bool, modifiers: Modifiers },
    /// A pixel-based scroll wheel event on both axes.
    Scroll { delta_x: i32, delta_y: i32 },
}

/// Direction of an arrow key.
#[derive(Debug, Clone, Copy, PartialEq, Eq, Structural)]
pub enum ArrowDirection {
    Left,
    Right,
    Up,
    Down,
}

/// The arrow key for a direction.
pub open spec fn arrow_key(d: ArrowDirection) -> KeyCode {
    match d {
        ArrowDirection::Left => KeyCode::Left,
        ArrowDirection::Right => KeyCode::Right,
        ArrowDirection::Up => KeyCode::Up,
        ArrowDirection::Down => KeyCode::Down,
    }
}

/// A key press: the key goes down, then up, with the same modifiers.
pub open spec fn key_press(k: KeyCode, m: Modifiers) -> Seq<SyntheticEvent> {
    seq![
        SyntheticEvent::Key { keycode: k, key_down: true, modifiers: m },
        SyntheticEvent::Key { keycode: k, key_down: false, modifiers: m },
    ]
}

/// A press of the arrow key for a direction.
pub open spec fn arrow_press(d: ArrowDirection, m: Modifiers) -> Seq<SyntheticEvent> {
    key_press(arrow_key(d), m)
}

/// `s` repeated `n` times.
pub open spec fn repeat(s: Seq<SyntheticEvent>, n: nat) -> Seq<SyntheticEvent>
    decreases n,
{
    if n == 0 {
        Seq::empty()
    } else {
        repeat(s, (n - 1) as nat) + s
    }
}

/// A single scroll event.
pub open spec fn scroll(dx: i32, dy: i32) -> Seq<SyntheticEvent> {
    seq![SyntheticEvent::Scroll { delta_x: dx, delta_y: dy }]
}

/// Modifiers with exactly the given keys held (never Caps Lock).
pub open spec fn mods(shift: bool, control: bool, option: bool, command: bool) -> Modifiers {
    Modifiers { shift, control, option, command, caps_lock: false }
}

/// Shift held when selecting, nothing otherwise.
pub open spec fn select_mods(select: bool) -> Modifiers {
    mods(select, false, false, false)
}

/// Command held, Shift when selecting.
pub open spec fn command_mods(select: bool) -> Modifiers {
    mods(select, false, false, true)
}

/// Option held, Shift when selecting.
pub open spec fn option_mods(select: bool) -> Modifiers {
    mods(select, false, true, false)
}

/// The modifier sets the plans use: selecting adds Shift; the command,
/// option and select sets hold exactly Command, Option or nothing else; and
/// each arrow direction presses its own arrow key.
pub proof fn lemma_plan_modifiers(select: bool)
    ensures
        command_mods(select) == (Modifiers { shift: select, control: false, option: false, command: true, caps_lock: false }),
        option_mods(select) == (Modifiers { shift: select, control: false, option: true, command: false, caps_lock: false }),
        select_mods(select) == (Modifiers { shift: select, control: false, option: false, command: false, caps_lock: false }),
        arrow_key(ArrowDirection::Left) == KeyCode::Left,
        arrow_key(ArrowDirection::Right) == KeyCode::Right,
        arrow_key(ArrowDirection::Up) == KeyCode::Up,
        arrow_key(ArrowDirection::Down) == KeyCode::Down,
{
}

fn make_mods(shift: bool, control: bool, option: bool, command: bool) -> (r: Modifiers)
    ensures
        r == mods(shift, control, option, command),
{
    Modifiers { shift, control, option, command, caps_lock: false }
}

fn push_press(plan: &mut Vec<SyntheticEvent>, k: KeyCode, m: Modifiers)
    ensures
        final(plan)@ == old(plan)@ + key_press(k, m),
{
    plan.push(SyntheticEvent::Key { keycode: k, key_down: true, modifiers: m });
    plan.push(SyntheticEvent::Key { keycode: k, key_down: false, modifiers: m });
    proof {
        assert(final(plan)@ =~= old(plan)@ + key_press(k, m));
    }
}

fn arrow_keycode(d: ArrowDirection) -> (k: KeyCode)
    ensures
        k == arrow_key(d),
{
    match d {
        ArrowDirection::Left => KeyCode::Left,
        ArrowDirection::Right => KeyCode::Right,
        ArrowDirection::Up => KeyCode::Up,
        ArrowDirection::Down => KeyCode::Down,
    }
}

/// The key going down, then up.
pub fn inject_key_press(keycode: KeyCode, modifiers: Modifiers) -> (r: Vec<SyntheticEvent>)
    ensures
        r@ == key_press(keycode, modifiers),
{
    let mut plan = Vec::new();
    push_press(&mut plan, keycode, modifiers);
    plan
}

/// One press of the arrow key for `direction`.
pub fn inject_arrow(direction: ArrowDirection, modifiers: Modifiers) -> (r: Vec<SyntheticEvent>)
    ensures
        r@ == arrow_press(direction, modifiers),
{
    inject_key_press(arrow_keycode(direction), modifiers)
}

fn repeated_arrow(direction: ArrowDirection, m: Modifiers, count: u32) -> (r: Vec<SyntheticEvent>)
    ensures
        r@ == repeat(arrow_press(direction, m), count as nat),
{
    let k = arrow_keycode(direction);
    let mut plan = Vec::new();
    let mut i: u32 = 0;
    while i < count
        invariant
            i <= count,
            k == arrow_key(direction),
            plan@ == repeat(arrow_press(direction, m), i as nat),
        decreases count - i,
    {
        push_press(&mut plan, k, m);
        i = i + 1;
    }
    plan
}

/// Move the cursor left `count` times (h); Shift extends the selection.
pub fn cursor_left(count: u32, select: bool) -> (r: Vec<SyntheticEvent>)
    ensures
        r@ == repeat(arrow_press(ArrowDirection::Left, select_mods(select)), count as nat),
{
    repeated_arrow(ArrowDirection::Left, make_mods(select, false, false, false), count)
}

/// Move the cursor right `count` times (l).
pub fn cursor_right(count: u32, select: bool) -> (r: Vec<SyntheticEvent>)
    ensures
        r@ == repeat(arrow_press(ArrowDirection::Right, select_mods(select)), count as nat),
{
    repeated_arrow(ArrowDirection::Right, make_mods(select, false, false, false), count)
}

/// Move the cursor up `count` times (k).
pub fn cursor_up(count: u32, select: bool) -> (r: Vec<SyntheticEvent>)
    ensures
        r@ == repeat(arrow_press(ArrowDirection::Up, select_mods(select)), count as nat),
{
    repeated_arrow(ArrowDirection::Up, make_mods(select, false, false, false), count)
}

/// Move the cursor down `count` times (j).
pub fn cursor_down(count: u32, select: bool) -> (r: Vec<SyntheticEvent>)
    ensures
        r@ == repeat(arrow_press(ArrowDirection::Down, select_mods(select)), count as nat),
{
    repeated_arrow(ArrowDirection::Down, make_mods(select, false, false, false), count)
}

/// Back to the start of a word `count` times (b): Option+Left.
pub fn word_backward(count: u32, select: bool) -> (r: Vec<SyntheticEvent>)
    ensures
        r@ == repeat(arrow_press(ArrowDirection::Left, option_mods(select)), count as nat),
{
    repeated_arrow(ArrowDirection::Left, make_mods(select, false, true, false), count)
}

/// Forward to the next word `count` times (w, e): Option+Right.
pub fn word_forward(count: u32, select: bool) -> (r: Vec<SyntheticEvent>)
    ensures
        r@ == repeat(arrow_press(ArrowDirection::Right, option_mods(select)), count as nat),
{
    repeated_arrow(ArrowDirection::Right, make_mods(select, false, true, false), count)
}

/// Start of line (0, ^): Command+Left.
pub fn line_start(select: bool) -> (r: Vec<SyntheticEvent>)
    ensures
        r@ == arrow_press(ArrowDirection::Left, command_mods(select)),
{
    inject_arrow(ArrowDirection::Left, make_mods(select, false, false, true))
}

/// End of line ($): Command+Right.
pub fn line_end(select: bool) -> (r: Vec<SyntheticEvent>)
    ensures
        r@ == arrow_press(ArrowDirection::Right, command_mods(select)),
{
    inject_arrow(ArrowDirection::Right, make_mods(select, false, false, true))
}

/// Start of document (gg): Command+Up.
pub fn document_start(select: bool) -> (r: Vec<SyntheticEvent>)
    ensures
        r@ == arrow_press(ArrowDirection::Up, command_mods(select)),
{
    inject_arrow(ArrowDirection::Up, make_mods(select, false, false, true))
}

/// End of document (G): Command+Down.
pub fn document_end(select: bool) -> (r: Vec<SyntheticEvent>)
    ensures
        r@ == arrow_press(ArrowDirection::Down, command_mods(select)),
{
    inject_arrow(ArrowDirection::Down, make_mods(select, false, false, true))
}

/// Page up.
pub fn page_up(select: bool) -> (r: Vec<SyntheticEvent>)
    ensures
        r@ == key_press(KeyCode::PageUp, select_mods(select)),
{
    inject_key_press(KeyCode::PageUp, make_mods(select, false, false, false))
}

/// Page down.
pub fn page_down(select: bool) -> (r: Vec<SyntheticEvent>)
    ensures
        r@ == key_press(KeyCode::PageDown, select_mods(select)),
{
    inject_key_press(KeyCode::PageDown, make_mods(select, false, false, false))
}

/// Delete the character under the cursor (x): Forward Delete.
pub fn delete_char() -> (r: Vec<SyntheticEvent>)
    ensures
        r@ == key_press(KeyCode::ForwardDelete, no_modifiers()),
{
    inject_key_press(KeyCode::ForwardDelete, make_mods(false, false, false, false))
}

/// Delete the character before the cursor (X): Delete.
pub fn backspace() -> (r: Vec<SyntheticEvent>)
    ensures
        r@ == key_press(KeyCode::Delete, no_modifiers()),
{
    inject_key_press(KeyCode::Delete, make_mods(false, false, false, false))
}

/// Cut the selection: Command+X.
pub fn cut() -> (r: Vec<SyntheticEvent>)
    ensures
        r@ == key_press(KeyCode::X, command_mods(false)),
{
    inject_key_press(KeyCode::X, make_mods(false, false, false, true))
}

/// Copy the selection: Command+C.
pub fn copy() -> (r: Vec<SyntheticEvent>)
    ensures
        r@ == key_press(KeyCode::C, command_mods(false)),
{
    inject_key_press(KeyCode::C, make_mods(false, false, false, true))
}

/// Paste: Command+V.
pub fn paste() -> (r: Vec<SyntheticEvent>)
    ensures
        r@ == key_press(KeyCode::V, command_mods(false)),
{
    inject_key_press(KeyCode::V, make_mods(false, false, false, true))
}

/// Undo: Command+Z.
pub fn undo() -> (r: Vec<SyntheticEvent>)
    ensures
        r@ == key_press(KeyCode::Z, command_mods(false)),
{
    inject_key_press(KeyCode::Z, make_mods(false, false, false, true))
}

/// Redo: Command+Shift+Z.
pub fn redo() -> (r: Vec<SyntheticEvent>)
    ensures
        r@ == key_press(KeyCode::Z, command_mods(true)),
{
    inject_key_press(KeyCode::Z, make_mods(true, false, false, true))
}

/// Open a line below (o): end of line, then Return.
pub fn new_line_below() -> (r: Vec<SyntheticEvent>)
    ensures
        r@ == arrow_press(ArrowDirection::Right, command_mods(false)) + key_press(
            KeyCode::Return,
            no_modifiers(),
        ),
{
    let mut plan = line_end(false);
    push_press(&mut plan, KeyCode::Return, make_mods(false, false, false, false));
    plan
}

/// Open a line above (O): start of line, Return, then up one line.
pub fn new_line_above() -> (r: Vec<SyntheticEvent>)
    ensures
        r@ == arrow_press(ArrowDirection::Left, command_mods(false)) + key_press(
            KeyCode::Return,
            no_modifiers(),
        ) + repeat(arrow_press(ArrowDirection::Up, select_mods(false)), 1),
{
    let mut plan = line_start(false);
    push_press(&mut plan, KeyCode::Return, make_mods(false, false, false, false));
    let mut up = cursor_up(1, false);
    plan.append(&mut up);
    plan
}

/// Paragraph up `count` times ({): Option+Up.
pub fn paragraph_up(count: u32, select: bool) -> (r: Vec<SyntheticEvent>)
    ensures
        r@ == repeat(arrow_press(ArrowDirection::Up, option_mods(select)), count as nat),
{
    repeated_arrow(ArrowDirection::Up, make_mods(select, false, true, false), count)
}

/// Paragraph down `count` times (}): Option+Down.
pub fn paragraph_down(count: u32, select: bool) -> (r: Vec<SyntheticEvent>)
    ensures
        r@ == repeat(arrow_press(ArrowDirection::Down, option_mods(select)), count as nat),
{
    repeated_arrow(ArrowDirection::Down, make_mods(select, false, true, false), count)
}

/// Join lines (J): end of line, delete the newline, type a space.
pub fn join_lines() -> (r: Vec<SyntheticEvent>)
    ensures
        r@ == arrow_press(ArrowDirection::Right, command_mods(false)) + key_press(
            KeyCode::ForwardDelete,
            no_modifiers(),
        ) + key_press(KeyCode::Space, no_modifiers()),
{
    let mut plan = line_end(false);
    let mut del = delete_char();
    plan.append(&mut del);
    push_press(&mut plan, KeyCode::Space, make_mods(false, false, false, false));
    plan
}

/// Select the inner word (iw): back to the word start, then select forward.
pub fn select_inner_word() -> (r: Vec<SyntheticEvent>)
    ensures
        r@ == repeat(arrow_press(ArrowDirection::Left, option_mods(false)), 1) + repeat(
            arrow_press(ArrowDirection::Right, option_mods(true)),
            1,
        ),
{
    let mut plan = word_backward(1, false);
    let mut fwd = word_forward(1, true);
    plan.append(&mut fwd);
    plan
}

/// Select around the word (aw): the inner word plus the character after it.
pub fn select_around_word() -> (r: Vec<SyntheticEvent>)
    ensures
        r@ == repeat(arrow_press(ArrowDirection::Left, option_mods(false)), 1) + repeat(
            arrow_press(ArrowDirection::Right, option_mods(true)),
            1,
        ) + repeat(arrow_press(ArrowDirection::Right, select_mods(true)), 1),
{
    let mut plan = word_backward(1, false);
    let mut fwd = word_forward(1, true);
    plan.append(&mut fwd);
    let mut right = cursor_right(1, true);
    plan.append(&mut right);
    plan
}

/// Indent the line (>>): start of line, then Tab.
pub fn indent_line() -> (r: Vec<SyntheticEvent>)
    ensures
        r@ == arrow_press(ArrowDirection::Left, command_mods(false)) + key_press(
            KeyCode::Tab,
            no_modifiers(),
        ),
{
    let mut plan = line_start(false);
    push_press(&mut plan, KeyCode::Tab, make_mods(false, false, false, false));
    plan
}

/// Outdent the line (<<): start of line, then Shift+Tab.
pub fn outdent_line() -> (r: Vec<SyntheticEvent>)
    ensures
        r@ == arrow_press(ArrowDirection::Left, command_mods(false)) + key_press(
            KeyCode::Tab,
            select_mods(true),
        ),
{
    let mut plan = line_start(false);
    push_press(&mut plan, KeyCode::Tab, make_mods(true, false, false, false));
    plan
}

/// Type the character of a key, with Shift when asked.
pub fn type_char(keycode: KeyCode, shift: bool) -> (r: Vec<SyntheticEvent>)
    ensures
        r@ == key_press(keycode, select_mods(shift)),
{
    inject_key_press(keycode, make_mods(shift, false, false, false))
}

fn scroll_event(delta_x: i32, delta_y: i32) -> (r: Vec<SyntheticEvent>)
    ensures
        r@ == scroll(delta_x, delta_y),
{
    let mut plan = Vec::new();
    plan.push(SyntheticEvent::Scroll { delta_x, delta_y });
    proof {
        assert(plan@ =~= scroll(delta_x, delta_y));
    }
    plan
}

/// Scroll down by `amount` pixels (j): a negative vertical delta. The amount
/// is reinterpreted as `i32` before it is negated; the one amount whose
/// negation overflows is not accepted.
pub fn scroll_down(amount: u32) -> (r: Vec<SyntheticEvent>)
    requires
        amount != 0x8000_0000u32,
    ensures
        r@ == scroll(0, -(amount as i32) as i32),
{
    let a: i32 = amount as i32;
    assert(a != i32::MIN) by (bit_vector)
        requires
            a == amount as i32,
            amount != 0x8000_0000u32,
    ;
    scroll_event(0, -a)
}

/// Scroll up by `amount` pixels (k): a positive vertical delta.
pub fn scroll_up(amount: u32) -> (r: Vec<SyntheticEvent>)
    ensures
        r@ == scroll(0, amount as i32),
{
    scroll_event(0, amount as i32)
}

/// Scroll left by `amount` pixels (h): a positive horizontal delta.
pub fn scroll_left(amount: u32) -> (r: Vec<SyntheticEvent>)
    ensures
        r@ == scroll(amount as i32, 0),
{
    scroll_event(amount as i32, 0)
}

/// Scroll right by `amount` pixels (l): a negative horizontal delta; the
/// one amount whose negation overflows is not accepted.
pub fn scroll_right(amount: u32) -> (r: Vec<SyntheticEvent>)
    requires
        amount != 0x8000_0000u32,
    ensures
        r@ == scroll(-(amount as i32) as i32, 0),
{
    let a: i32 = amount as i32;
    assert(a != i32::MIN) by (bit_vector)
        requires
            a == amount as i32,
            amount != 0x8000_0000u32,
    ;
    scroll_event(-a, 0)
}

/// Half a page down (d): the PageDown key.
pub fn half_page_scroll_down() -> (r: Vec<SyntheticEvent>)
    ensures
        r@ == key_press(KeyCode::PageDown, no_modifiers()),
{
    inject_key_press(KeyCode::PageDown, make_mods(false, false, false, false))
}

/// Half a page up (u): the PageUp key.
pub fn half_page_scroll_up() -> (r: Vec<SyntheticEvent>)
    ensures
        r@ == key_press(KeyCode::PageUp, no_modifiers()),
{
    inject_key_press(KeyCode::PageUp, make_mods(false, false, false, false))
}

/// History back (H): Command+[.
pub fn history_back() -> (r: Vec<SyntheticEvent>)
    ensures
        r@ == key_press(KeyCode::LeftBracket, command_mods(false)),
{
    inject_key_press(KeyCode::LeftBracket, make_mods(false, false, false, true))
}

/// History forward (L): Command+].
pub fn history_forward() -> (r: Vec<SyntheticEvent>)
    ensures
        r@ == key_press(KeyCode::RightBracket, command_mods(false)),
{
    inject_key_press(KeyCode::RightBracket, make_mods(false, false, false, true))
}

/// Reload the page (r): Command+R, with Shift for a hard reload.
pub fn reload_page(hard: bool) -> (r: Vec<SyntheticEvent>)
    ensures
        r@ == key_press(KeyCode::R, command_mods(hard)),
{
    inject_key_press(KeyCode::R, make_mods(hard, false, false, true))
}

/// Open the find bar (/): Command+F.
pub fn open_find() -> (r: Vec<SyntheticEvent>)
    ensures
        r@ == key_press(KeyCode::F, command_mods(false)),
{
    inject_key_press(KeyCode::F, make_mods(false, false, false, true))
}

/// Top of the page (gg): Command+Up.
pub fn scroll_to_top() -> (r: Vec<SyntheticEvent>)
    ensures
        r@ == arrow_press(ArrowDirection::Up, command_mods(false)),
{
    inject_arrow(ArrowDirection::Up, make_mods(false, false, false, true))
}

/// Bottom of the page (G): Command+Down.
pub fn scroll_to_bottom() -> (r: Vec<SyntheticEvent>)
    ensures
        r@ == arrow_press(ArrowDirection::Down, command_mods(false)),
{
    inject_arrow(ArrowDirection::Down, make_mods(false, false, false, true))
}

/// Previous list item (k): Up arrow.
pub fn list_up() -> (r: Vec<SyntheticEvent>)
    ensures
        r@ == arrow_press(ArrowDirection::Up, no_modifiers()),
{
    inject_arrow(ArrowDirection::Up, make_mods(false, false, false, false))
}

/// Next list item (j): Down arrow.
pub fn list_down() -> (r: Vec<SyntheticEvent>)
    ensures
        r@ == arrow_press(ArrowDirection::Down, no_modifiers()),
{
    inject_arrow(ArrowDirection::Down, make_mods(false, false, false, false))
}

/// Left in a list, collapsing a folder in tree views (h): Left arrow.
pub fn list_left() -> (r: Vec<SyntheticEvent>)
    ensures
        r@ == arrow_press(ArrowDirection::Left, no_modifiers()),
{
    inject_arrow(ArrowDirection::Left, make_mods(false, false, false, false))
}

/// Right in a list, expanding a folder in tree views (l): Right arrow.
pub fn list_right() -> (r: Vec<SyntheticEvent>)
    ensures
        r@ == arrow_press(ArrowDirection::Right, no_modifiers()),
{
    inject_arrow(ArrowDirection::Right, make_mods(false, false, false, false))
}

/// Extend the selection up (K): Shift+Up.
pub fn list_select_up() -> (r: Vec<SyntheticEvent>)
    ensures
        r@ == arrow_press(ArrowDirection::Up, select_mods(true)),
{
    inject_arrow(ArrowDirection::Up, make_mods(true, false, false, false))
}

/// Extend the selection down (J): Shift+Down.
pub fn list_select_down() -> (r: Vec<SyntheticEvent>)
    ensures
        r@ == arrow_press(ArrowDirection::Down, select_mods(true)),
{
    inject_arrow(ArrowDirection::Down, make_mods(true, false, false, false))
}

/// First list item (gg): Home.
pub fn list_go_top() -> (r: Vec<SyntheticEvent>)
    ensures
        r@ == key_press(KeyCode::Home, no_modifiers()),
{
    inject_key_press(KeyCode::Home, make_mods(false, false, false, false))
}

/// Last list item (G): End.
pub fn list_go_bottom() -> (r: Vec<SyntheticEvent>)
    ensures
        r@ == key_press(KeyCode::End, no_modifiers()),
{
    inject_key_press(KeyCode::End, make_mods(false, false, false, false))
}

/// Return, to open the selected item (o).
pub fn inject_return() -> (r: Vec<SyntheticEvent>)
    ensures
        r@ == key_press(KeyCode::Return, no_modifiers()),
{
    inject_key_press(KeyCode::Return, make_mods(false, false, false, false))
}

} // verus!
