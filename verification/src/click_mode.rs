//! Click Mode: keyboard-driven clicking of UI elements.
//!
//! Hint labels are shown over the clickable elements of the frontmost app;
//! typing a label clicks its element, typing a search query filters the
//! elements by text. This module holds the state machine. The elements'
//! screen geometry stays with the application, which finds it again by the
//! element id.

use vstd::prelude::*;
use vstd::utf8::is_ascii_chars;

use crate::hints::{hint_match, match_hint};
use crate::keycode::{KeyCode, KeyEvent, key_char, raw_code};
use crate::text::{
    ascii_lower, char_is_alphanumeric, char_to_ascii_lowercase, contains, is_alphanumeric_char,
    is_infix, owned, pop_char, push_char, to_lowercase, to_uppercase, unicode_lower, unicode_upper,
};

verus! {

/// The kind of click to perform on the chosen element.
#[derive(Debug, Clone, Copy, PartialEq, Eq, Structural)]
pub enum ClickAction {
    /// Normal left click.
    Click,
    /// Right click (context menu).
    RightClick,
    /// Command-click.
    CmdClick,
    /// Double click.
    DoubleClick,
}

impl Default for ClickAction {
    fn default() -> (r: Self)
        ensures
            r == ClickAction::Click,
    {
        ClickAction::Click
    }
}

/// The short name shown for an action.
pub open spec fn action_name(a: ClickAction) -> Seq<char> {
    match a {
        ClickAction::Click => "click"@,
        ClickAction::RightClick => "right"@,
        ClickAction::CmdClick => "cmd"@,
        ClickAction::DoubleClick => "double"@,
    }
}

impl ClickAction {
    /// The short name shown for this action.
    pub fn display_name(&self) -> (r: &'static str)
        ensures
            r@ == action_name(*self),
    {
        match self {
            ClickAction::Click => "click",
            ClickAction::RightClick => "right",
            ClickAction::CmdClick => "cmd",
            ClickAction::DoubleClick => "double",
        }
    }
}

/// The click mode state.
#[derive(Debug, Clone)]
pub enum ClickModeState {
    /// Click mode is off.
    Inactive,
    /// Hints are shown and typed hint characters collect in the buffer.
    ShowingHints {
        input_buffer: String,
        element_count: usize,
        click_action: ClickAction,
        /// Whether one wrong second keystroke was already forgiven.
        wrong_second_key: bool,
    },
    /// Elements are filtered by a text query.
    Searching { query: String, match_count: usize, click_action: ClickAction },
}

impl Default for ClickModeState {
    fn default() -> (r: Self)
        ensures
            r is Inactive,
    {
        ClickModeState::Inactive
    }
}

/// The state shows hints with exactly this buffer, count, action and retry
/// flag.
pub open spec fn showing(
    st: ClickModeState,
    input: Seq<char>,
    count: nat,
    action: ClickAction,
    wrong: bool,
) -> bool {
    st matches ClickModeState::ShowingHints {
        input_buffer,
        element_count,
        click_action,
        wrong_second_key,
    } && input_buffer@ == input && element_count == count && click_action == action
        && wrong_second_key == wrong
}

/// The state searches with exactly this query, count and action.
pub open spec fn searching(st: ClickModeState, q: Seq<char>, count: nat, action: ClickAction) -> bool {
    st matches ClickModeState::Searching { query, match_count, click_action } && query@ == q
        && match_count == count && click_action == action
}

/// The typed text of a state: the hint buffer, the query, or nothing.
pub open spec fn state_input(st: ClickModeState) -> Seq<char> {
    match st {
        ClickModeState::Inactive => Seq::empty(),
        ClickModeState::ShowingHints { input_buffer, .. } => input_buffer@,
        ClickModeState::Searching { query, .. } => query@,
    }
}

/// The action recorded in a state; `Click` when inactive.
pub open spec fn state_action(st: ClickModeState) -> ClickAction {
    match st {
        ClickModeState::Inactive => ClickAction::Click,
        ClickModeState::ShowingHints { click_action, .. } => click_action,
        ClickModeState::Searching { click_action, .. } => click_action,
    }
}

impl ClickModeState {
    /// Whether click mode is on.
    pub fn is_active(&self) -> (r: bool)
        ensures
            r == !(*self is Inactive),
    {
        !matches!(self, ClickModeState::Inactive)
    }

    /// Whether hints are being selected.
    pub fn is_showing_hints(&self) -> (r: bool)
        ensures
            r == (*self is ShowingHints),
    {
        matches!(self, ClickModeState::ShowingHints { .. })
    }

    /// Whether a search is running.
    pub fn is_searching(&self) -> (r: bool)
        ensures
            r == (*self is Searching),
    {
        matches!(self, ClickModeState::Searching { .. })
    }

    /// The typed hint characters or search query.
    pub fn input(&self) -> (r: &str)
        ensures
            r@ == state_input(*self),
    {
        match self {
            ClickModeState::Inactive => {
                proof {
                    reveal_strlit("");
                }
                ""
            },
            ClickModeState::ShowingHints { input_buffer, .. } => input_buffer.as_str(),
            ClickModeState::Searching { query, .. } => query.as_str(),
        }
    }

    /// The action recorded in the state.
    pub fn click_action(&self) -> (r: ClickAction)
        ensures
            r == state_action(*self),
    {
        match self {
            ClickModeState::Inactive => ClickAction::Click,
            ClickModeState::ShowingHints { click_action, .. } => *click_action,
            ClickModeState::Searching { click_action, .. } => *click_action,
        }
    }
}

/// A clickable element as the state machine sees it: its id, hint label,
/// accessibility role and title.
#[derive(Debug)]
pub struct ClickTarget {
    pub id: usize,
    pub hint: String,
    pub role: String,
    pub title: String,
}

impl ClickTarget {
    /// A copy of the element for handing out.
    pub fn to_serializable(&self) -> (r: ClickTarget)
        ensures
            r == *self,
    {
        ClickTarget {
            id: self.id,
            hint: self.hint.clone(),
            role: self.role.clone(),
            title: self.title.clone(),
        }
    }
}

/// What a typed hint character led to.
#[derive(Debug)]
pub enum HintInputResult {
    /// Exactly one hint equals the input: click this element.
    Match(ClickTarget),
    /// Some hints start with the input: wait for more.
    Partial,
    /// The second character was wrong; one retry is allowed.
    WrongSecondKey,
    /// No hint fits the input.
    NoMatch,
}

/// Positions below `n` of the elements whose hint the input equals.
pub open spec fn exact_indices(els: Seq<ClickTarget>, input: Seq<char>, n: nat) -> Seq<int>
    decreases n,
{
    if n == 0 {
        Seq::empty()
    } else {
        let prev = exact_indices(els, input, (n - 1) as nat);
        if hint_match(els[n - 1].hint@, input) == Some(true) {
            prev.push(n - 1)
        } else {
            prev
        }
    }
}

/// Whether some element's hint the input equals or starts.
pub open spec fn any_match(els: Seq<ClickTarget>, input: Seq<char>) -> bool {
    exists|i: int| 0 <= i < els.len() && (#[trigger] hint_match(els[i].hint@, input)) is Some
}

/// Whether an element's hint fits the typed hint buffer.
pub open spec fn hint_hit(e: ClickTarget, input: Seq<char>) -> bool {
    hint_match(e.hint@, input) is Some
}

/// Whether an element's title or role contains the query, ignoring case.
pub open spec fn search_hit(e: ClickTarget, query: Seq<char>) -> bool {
    is_infix(unicode_lower(query), unicode_lower(e.title@)) || is_infix(
        unicode_lower(query),
        unicode_lower(e.role@),
    )
}

/// The elements that a state shows: none when inactive, those whose hint
/// fits the buffer (all for an empty buffer), or those the query hits.
pub open spec fn filtered(st: ClickModeState, els: Seq<ClickTarget>) -> Seq<ClickTarget> {
    match st {
        ClickModeState::Inactive => Seq::empty(),
        ClickModeState::ShowingHints { input_buffer, .. } => if input_buffer@.len() == 0 {
            els
        } else {
            els.filter(|e: ClickTarget| hint_hit(e, input_buffer@))
        },
        ClickModeState::Searching { query, .. } => els.filter(|e: ClickTarget| search_hit(e, query@)),
    }
}

/// What typing hint character `c` does, from state `st` over elements
/// `els` with action `action`, to state `st2` with result `r`. The
/// character is uppercased and appended to the buffer. Exactly one hint
/// equal to the result is a match (state unchanged); hints starting with it
/// keep the new buffer; a wrong second character after a correct one-ASCII-
/// character buffer is forgiven once; anything else is no match (state
/// unchanged). Outside hint mode nothing happens.
pub open spec fn hint_input_post(
    st: ClickModeState,
    els: Seq<ClickTarget>,
    action: ClickAction,
    c: char,
    st2: ClickModeState,
    r: HintInputResult,
) -> bool {
    match st {
        ClickModeState::ShowingHints { input_buffer, wrong_second_key, .. } => {
            let new_input = input_buffer@ + unicode_upper(seq![c]);
            let ex = exact_indices(els, new_input, els.len());
            if ex.len() == 1 {
                r == HintInputResult::Match(els[ex[0]]) && st2 == st
            } else if any_match(els, new_input) {
                r is Partial && showing(st2, new_input, els.len(), action, false)
            } else if input_buffer@.len() == 1 && is_ascii_chars(input_buffer@) && !wrong_second_key
                && any_match(els, input_buffer@) {
                r is WrongSecondKey && showing(st2, input_buffer@, els.len(), action, true)
            } else {
                r is NoMatch && st2 == st
            }
        },
        _ => r is NoMatch && st2 == st,
    }
}

/// Delete undoes a hint character that kept the hint selection open: after
/// a partial match the buffer is the old buffer and the character's
/// uppercase form, so removing the last character (as `clear_last_input`
/// does) gives the old buffer back when that form is one character.
pub proof fn lemma_delete_undoes_partial_input(
    st: ClickModeState,
    els: Seq<ClickTarget>,
    action: ClickAction,
    c: char,
    st2: ClickModeState,
)
    requires
        hint_input_post(st, els, action, c, st2, HintInputResult::Partial),
        unicode_upper(seq![c]).len() == 1,
    ensures
        st2 matches ClickModeState::ShowingHints { input_buffer, .. } && input_buffer@.len() > 0
            && input_buffer@.drop_last() == state_input(st),
{
    match st {
        ClickModeState::ShowingHints { input_buffer, .. } => {
            let new_input = input_buffer@ + unicode_upper(seq![c]);
            assert(new_input.drop_last() =~= input_buffer@);
        },
        _ => {},
    }
}

/// Click mode state and the elements it works on.
pub struct ClickModeManager {
    state: ClickModeState,
    elements: Vec<ClickTarget>,
    click_action: ClickAction,
}

fn copy_targets(els: &Vec<ClickTarget>) -> (r: Vec<ClickTarget>)
    ensures
        r@ == els@,
{
    let mut out: Vec<ClickTarget> = Vec::new();
    let mut i: usize = 0;
    while i < els.len()
        invariant
            i <= els@.len(),
            out@ == els@.take(i as int),
        decreases els@.len() - i,
    {
        out.push(els[i].to_serializable());
        proof {
            assert(out@ =~= els@.take(i + 1));
        }
        i = i + 1;
    }
    proof {
        assert(out@ =~= els@);
    }
    out
}

fn filter_by_hint(els: &Vec<ClickTarget>, input: &str) -> (r: Vec<ClickTarget>)
    ensures
        r@ == els@.filter(|e: ClickTarget| hint_hit(e, input@)),
{
    let ghost p = |e: ClickTarget| hint_hit(e, input@);
    let mut out: Vec<ClickTarget> = Vec::new();
    let mut i: usize = 0;
    while i < els.len()
        invariant
            i <= els@.len(),
            p == (|e: ClickTarget| hint_hit(e, input@)),
            out@ == els@.take(i as int).filter(p),
        decreases els@.len() - i,
    {
        proof {
            reveal_with_fuel(Seq::filter, 1);
            assert(els@.take(i + 1).drop_last() =~= els@.take(i as int));
        }
        if match_hint(els[i].hint.as_str(), input).is_some() {
            out.push(els[i].to_serializable());
        }
        i = i + 1;
    }
    proof {
        assert(els@.take(els@.len() as int) =~= els@);
    }
    out
}

fn search_matches(e: &ClickTarget, query_lower: &str, query: Ghost<Seq<char>>) -> (r: bool)
    requires
        query_lower@ == unicode_lower(query@),
    ensures
        r == search_hit(*e, query@),
{
    let title = to_lowercase(e.title.as_str());
    if contains(title.as_str(), query_lower) {
        return true;
    }
    let role = to_lowercase(e.role.as_str());
    contains(role.as_str(), query_lower)
}

fn filter_by_search(els: &Vec<ClickTarget>, query: &str) -> (r: Vec<ClickTarget>)
    ensures
        r@ == els@.filter(|e: ClickTarget| search_hit(e, query@)),
{
    let query_lower = to_lowercase(query);
    let ghost p = |e: ClickTarget| search_hit(e, query@);
    let mut out: Vec<ClickTarget> = Vec::new();
    let mut i: usize = 0;
    while i < els.len()
        invariant
            i <= els@.len(),
            query_lower@ == unicode_lower(query@),
            p == (|e: ClickTarget| search_hit(e, query@)),
            out@ == els@.take(i as int).filter(p),
        decreases els@.len() - i,
    {
        proof {
            reveal_with_fuel(Seq::filter, 1);
            assert(els@.take(i + 1).drop_last() =~= els@.take(i as int));
        }
        if search_matches(&els[i], query_lower.as_str(), Ghost(query@)) {
            out.push(els[i].to_serializable());
        }
        i = i + 1;
    }
    proof {
        assert(els@.take(els@.len() as int) =~= els@);
    }
    out
}

impl ClickModeManager {
    /// The current state.
    pub closed spec fn cur_state(&self) -> ClickModeState {
        self.state
    }

    /// The elements click mode works on.
    pub closed spec fn targets(&self) -> Seq<ClickTarget> {
        self.elements@
    }

    /// The action the next click performs.
    pub closed spec fn action(&self) -> ClickAction {
        self.click_action
    }

    /// Inactive, no elements, plain click.
    pub fn new() -> (r: Self)
        ensures
            r.cur_state() is Inactive,
            r.targets().len() == 0,
            r.action() == ClickAction::Click,
    {
        ClickModeManager {
            state: ClickModeState::Inactive,
            elements: Vec::new(),
            click_action: ClickAction::Click,
        }
    }

    /// The current state.
    pub fn state(&self) -> (r: &ClickModeState)
        ensures
            *r == self.cur_state(),
    {
        &self.state
    }

    /// Whether click mode is on.
    pub fn is_active(&self) -> (r: bool)
        ensures
            r == !(self.cur_state() is Inactive),
    {
        self.state.is_active()
    }

    /// Switch to showing hints at once, before the elements are known, so
    /// that keys are captured while they are queried. The action resets to
    /// a plain click.
    pub fn set_activating(&mut self)
        ensures
            showing(final(self).cur_state(), Seq::empty(), 0, ClickAction::Click, false),
            final(self).action() == ClickAction::Click,
            final(self).targets() == old(self).targets(),
    {
        self.click_action = ClickAction::Click;
        self.state = ClickModeState::ShowingHints {
            input_buffer: String::new(),
            element_count: 0,
            click_action: self.click_action,
            wrong_second_key: false,
        };
    }

    /// Activate with the outcome of querying the frontmost app's elements.
    /// A failed query is passed on and changes nothing; no elements turns
    /// click mode off with an error; otherwise the elements are kept, hints
    /// are shown with an empty buffer, and copies of the elements returned.
    pub fn activate(&mut self, query: Result<Vec<ClickTarget>, String>) -> (r: Result<
        Vec<ClickTarget>,
        String,
    >)
        ensures
            match query {
                Err(e) => r == Err::<Vec<ClickTarget>, String>(e) && final(self).cur_state() == old(self).cur_state() && final(self).targets() == old(self).targets() && final(self).action()
                    == old(self).action(),
                Ok(els) => if els@.len() == 0 {
                    (r matches Err(e) && e@ == "No clickable elements found"@) && final(self).cur_state() is Inactive
                        && final(self).targets() == old(self).targets() && final(self).action()
                        == old(self).action()
                } else {
                    (r matches Ok(out) && out@ == els@) && final(self).targets() == els@ && final(self).action()
                        == old(self).action() && showing(
                        final(self).cur_state(),
                        Seq::empty(),
                        els@.len(),
                        old(self).action(),
                        false,
                    )
                },
            },
    {
        let internal = match query {
            Ok(els) => els,
            Err(e) => return Err(e),
        };
        if internal.len() == 0 {
            self.state = ClickModeState::Inactive;
            return Err(owned("No clickable elements found"));
        }
        let elements = copy_targets(&internal);
        let element_count = elements.len();
        self.elements = internal;
        self.state = ClickModeState::ShowingHints {
            input_buffer: String::new(),
            element_count,
            click_action: self.click_action,
            wrong_second_key: false,
        };
        Ok(elements)
    }

    /// Turn click mode off, drop the elements, reset the action.
    pub fn deactivate(&mut self)
        ensures
            final(self).cur_state() is Inactive,
            final(self).targets().len() == 0,
            final(self).action() == ClickAction::Click,
    {
        self.state = ClickModeState::Inactive;
        self.elements.clear();
        self.click_action = ClickAction::Click;
    }

    /// A mouse click or a scroll dismisses click mode: when it is active it
    /// is deactivated, and the answer says whether the hints must be hidden.
    /// The pointer event itself always passes on.
    pub fn dismiss_on_pointer_event(&mut self) -> (r: bool)
        ensures
            r == !(old(self).cur_state() is Inactive),
            r ==> final(self).cur_state() is Inactive && final(self).targets().len() == 0
                && final(self).action() == ClickAction::Click,
            !r ==> *final(self) == *old(self),
    {
        if self.is_active() {
            self.deactivate();
            true
        } else {
            false
        }
    }

    /// A typed hint character; see `hint_input_post`.
    pub fn handle_hint_input(&mut self, c: char) -> (r: HintInputResult)
        ensures
            final(self).targets() == old(self).targets(),
            final(self).action() == old(self).action(),
            hint_input_post(
                old(self).cur_state(),
                old(self).targets(),
                old(self).action(),
                c,
                final(self).cur_state(),
                r,
            ),
    {
        let (current_input, was_wrong_second_key) = match &self.state {
            ClickModeState::ShowingHints { input_buffer, wrong_second_key, .. } => (
                input_buffer.clone(),
                *wrong_second_key,
            ),
            _ => return HintInputResult::NoMatch,
        };
        let mut single = String::new();
        push_char(&mut single, c);
        let upper = to_uppercase(single.as_str());
        let mut new_input = current_input.clone();
        new_input.append(upper.as_str());
        proof {
            assert(single@ =~= seq![c]);
        }
        let ghost els = self.elements@;
        // Exact matches, counted; the first one remembered.
        let mut exact_count: usize = 0;
        let mut first_exact: usize = 0;
        let mut any_partial = false;
        let mut i: usize = 0;
        while i < self.elements.len()
            invariant
                els == self.elements@,
                i <= els.len(),
                exact_count == exact_indices(els, new_input@, i as nat).len(),
                exact_count > 0 ==> first_exact == exact_indices(els, new_input@, i as nat)[0]
                    && first_exact < i,
                exact_count <= i,
                any_partial == exists|j: int|
                    0 <= j < i && (#[trigger] hint_match(els[j].hint@, new_input@)) is Some,
            decreases els.len() - i,
        {
            let m = match_hint(self.elements[i].hint.as_str(), new_input.as_str());
            proof {
                assert(exact_indices(els, new_input@, (i + 1) as nat) == (if hint_match(
                    els[i as int].hint@,
                    new_input@,
                ) == Some(true) {
                    exact_indices(els, new_input@, i as nat).push(i as int)
                } else {
                    exact_indices(els, new_input@, i as nat)
                }));
            }
            if m == Some(true) {
                if exact_count == 0 {
                    first_exact = i;
                }
                exact_count = exact_count + 1;
            }
            if m.is_some() {
                any_partial = true;
            }
            i = i + 1;
        }
        if exact_count == 1 {
            return HintInputResult::Match(self.elements[first_exact].to_serializable());
        }
        if any_partial {
            self.state = ClickModeState::ShowingHints {
                input_buffer: new_input,
                element_count: self.elements.len(),
                click_action: self.click_action,
                wrong_second_key: false,
            };
            return HintInputResult::Partial;
        }
        if current_input.as_str().unicode_len() == 1 && current_input.as_str().is_ascii()
            && !was_wrong_second_key {
            let mut first_ok = false;
            let mut j: usize = 0;
            while j < self.elements.len()
                invariant
                    els == self.elements@,
                    j <= els.len(),
                    first_ok == exists|k: int|
                        0 <= k < j && (#[trigger] hint_match(els[k].hint@, current_input@)) is Some,
                decreases els.len() - j,
            {
                if match_hint(self.elements[j].hint.as_str(), current_input.as_str()).is_some() {
                    first_ok = true;
                }
                j = j + 1;
            }
            if first_ok {
                self.state = ClickModeState::ShowingHints {
                    input_buffer: current_input,
                    element_count: self.elements.len(),
                    click_action: self.click_action,
                    wrong_second_key: true,
                };
                return HintInputResult::WrongSecondKey;
            }
        }
        HintInputResult::NoMatch
    }

    /// Start a search over all elements; only while click mode is on.
    pub fn enter_search_mode(&mut self)
        ensures
            old(self).cur_state() is Inactive ==> final(self).cur_state() == old(self).cur_state(),
            !(old(self).cur_state() is Inactive) ==> searching(
                final(self).cur_state(),
                Seq::empty(),
                old(self).targets().len(),
                old(self).action(),
            ),
            final(self).targets() == old(self).targets(),
            final(self).action() == old(self).action(),
    {
        if !self.is_active() {
            return;
        }
        self.state = ClickModeState::Searching {
            query: String::new(),
            match_count: self.elements.len(),
            click_action: self.click_action,
        };
    }

    /// Search the elements' titles and roles for `query`, ignoring case;
    /// the state becomes a search for it, and the hits are returned.
    pub fn handle_search_input(&mut self, query: &str) -> (r: Vec<ClickTarget>)
        ensures
            r@ == old(self).targets().filter(|e: ClickTarget| search_hit(e, query@)),
            searching(final(self).cur_state(), query@, r@.len(), old(self).action()),
            final(self).targets() == old(self).targets(),
            final(self).action() == old(self).action(),
    {
        let matching = filter_by_search(&self.elements, query);
        self.state = ClickModeState::Searching {
            query: owned(query),
            match_count: matching.len(),
            click_action: self.click_action,
        };
        matching
    }

    /// Remove the last typed hint character or query character.
    pub fn clear_last_input(&mut self)
        ensures
            final(self).targets() == old(self).targets(),
            final(self).action() == old(self).action(),
            old(self).cur_state() is Inactive ==> final(self).cur_state() == old(self).cur_state(),
            old(self).cur_state() matches ClickModeState::ShowingHints {
                input_buffer,
                element_count,
                click_action,
                wrong_second_key,
            } ==> showing(
                final(self).cur_state(),
                if input_buffer@.len() == 0 {
                    input_buffer@
                } else {
                    input_buffer@.drop_last()
                },
                element_count as nat,
                click_action,
                wrong_second_key,
            ),
            old(self).cur_state() matches ClickModeState::Searching {
                query,
                match_count,
                click_action,
            } ==> searching(
                final(self).cur_state(),
                if query@.len() == 0 {
                    query@
                } else {
                    query@.drop_last()
                },
                match_count as nat,
                click_action,
            ),
    {
        match &self.state {
            ClickModeState::ShowingHints {
                input_buffer,
                element_count,
                click_action,
                wrong_second_key,
            } => {
                let mut buffer = input_buffer.clone();
                pop_char(&mut buffer);
                self.state = ClickModeState::ShowingHints {
                    input_buffer: buffer,
                    element_count: *element_count,
                    click_action: *click_action,
                    wrong_second_key: *wrong_second_key,
                };
            },
            ClickModeState::Searching { query, match_count, click_action } => {
                let mut q = query.clone();
                pop_char(&mut q);
                self.state = ClickModeState::Searching {
                    query: q,
                    match_count: *match_count,
                    click_action: *click_action,
                };
            },
            ClickModeState::Inactive => {},
        }
    }

    /// The elements the current state shows.
    pub fn get_filtered_elements(&self) -> (r: Vec<ClickTarget>)
        ensures
            r@ == filtered(self.cur_state(), self.targets()),
    {
        match &self.state {
            ClickModeState::Inactive => Vec::new(),
            ClickModeState::ShowingHints { input_buffer, .. } => {
                if input_buffer.as_str().unicode_len() == 0 {
                    copy_targets(&self.elements)
                } else {
                    filter_by_hint(&self.elements, input_buffer.as_str())
                }
            },
            ClickModeState::Searching { query, .. } => filter_by_search(
                &self.elements,
                query.as_str(),
            ),
        }
    }

    /// Copies of all elements.
    pub fn get_all_elements(&self) -> (r: Vec<ClickTarget>)
        ensures
            r@ == self.targets(),
    {
        copy_targets(&self.elements)
    }

    /// The typed hint characters or search query.
    pub fn get_current_input(&self) -> (r: String)
        ensures
            r@ == state_input(self.cur_state()),
    {
        match &self.state {
            ClickModeState::ShowingHints { input_buffer, .. } => input_buffer.clone(),
            ClickModeState::Searching { query, .. } => query.clone(),
            ClickModeState::Inactive => String::new(),
        }
    }

    /// The action the next click performs.
    pub fn get_click_action(&self) -> (r: ClickAction)
        ensures
            r == self.action(),
    {
        self.click_action
    }

    /// Choose the action for the next click; the state records it too.
    pub fn set_click_action(&mut self, action: ClickAction)
        ensures
            final(self).action() == action,
            final(self).targets() == old(self).targets(),
            old(self).cur_state() is Inactive ==> final(self).cur_state() == old(self).cur_state(),
            old(self).cur_state() matches ClickModeState::ShowingHints {
                input_buffer,
                element_count,
                wrong_second_key,
                ..
            } ==> showing(
                final(self).cur_state(),
                input_buffer@,
                element_count as nat,
                action,
                wrong_second_key,
            ),
            old(self).cur_state() matches ClickModeState::Searching { query, match_count, .. }
                ==> searching(final(self).cur_state(), query@, match_count as nat, action),
    {
        self.click_action = action;
        match &self.state {
            ClickModeState::ShowingHints {
                input_buffer,
                element_count,
                wrong_second_key,
                ..
            } => {
                self.state = ClickModeState::ShowingHints {
                    input_buffer: input_buffer.clone(),
                    element_count: *element_count,
                    click_action: action,
                    wrong_second_key: *wrong_second_key,
                };
            },
            ClickModeState::Searching { query, match_count, .. } => {
                self.state = ClickModeState::Searching {
                    query: query.clone(),
                    match_count: *match_count,
                    click_action: action,
                };
            },
            ClickModeState::Inactive => {},
        }
    }
}

impl Default for ClickModeManager {
    fn default() -> (r: Self)
        ensures
            r.cur_state() is Inactive,
            r.targets().len() == 0,
            r.action() == ClickAction::Click,
    {
        Self::new()
    }
}

/// What handling a key in click mode asks the application to do.
#[derive(Debug)]
pub enum ClickKeyEffect {
    /// Nothing beyond suppressing the key.
    Nothing,
    /// Click mode was cancelled: hide the hints and tell the frontend.
    Deactivated,
    /// The last input character was removed: refresh the hints.
    InputCleared,
    /// The click action changed: tell the frontend.
    ActionChanged(ClickAction),
    /// A hint character was typed, with this result. On a match click mode
    /// is already off and the element is to be clicked with `action`; on no
    /// match click mode is off.
    Hint { result: HintInputResult, action: ClickAction },
}

/// The action that an action-switching key selects: r, c, d, n.
pub open spec fn switch_action(c: char) -> Option<ClickAction> {
    let l = ascii_lower(c);
    if l == 'r' {
        Some(ClickAction::RightClick)
    } else if l == 'c' {
        Some(ClickAction::CmdClick)
    } else if l == 'd' {
        Some(ClickAction::DoubleClick)
    } else if l == 'n' {
        Some(ClickAction::Click)
    } else {
        None
    }
}

/// The action keys name the actions they select, in either letter case:
/// r, c and d select the action whose display name starts with that letter
/// ("right", "cmd", "double"), n selects the normal click, and no other
/// character selects anything.
pub proof fn lemma_action_keys_name_their_action(c: char)
    ensures
        switch_action(c) matches Some(a) ==> (a == ClickAction::Click && ascii_lower(c) == 'n') || (a
            != ClickAction::Click && action_name(a)[0] == ascii_lower(c)),
        switch_action(c) is Some <==> (ascii_lower(c) == 'r' || ascii_lower(c) == 'c' || ascii_lower(c)
            == 'd' || ascii_lower(c) == 'n'),
        switch_action('r') == Some(ClickAction::RightClick),
        switch_action('c') == Some(ClickAction::CmdClick),
        switch_action('d') == Some(ClickAction::DoubleClick),
        switch_action('n') == Some(ClickAction::Click),
        switch_action('C') == switch_action('c'),
{
    reveal_strlit("right");
    reveal_strlit("cmd");
    reveal_strlit("double");
    reveal_strlit("click");
}

/// Every action but the normal click is selected by the first letter of its
/// display name.
pub proof fn lemma_action_initial_selects_it(a: ClickAction)
    requires
        a != ClickAction::Click,
    ensures
        action_name(a).len() > 0,
        switch_action(action_name(a)[0]) == Some(a),
{
    reveal_strlit("right");
    reveal_strlit("cmd");
    reveal_strlit("double");
}

fn action_switch(c: char) -> (r: Option<ClickAction>)
    ensures
        r == switch_action(c),
{
    let l = char_to_ascii_lowercase(c);
    if l == 'r' {
        Some(ClickAction::RightClick)
    } else if l == 'c' {
        Some(ClickAction::CmdClick)
    } else if l == 'd' {
        Some(ClickAction::DoubleClick)
    } else if l == 'n' {
        Some(ClickAction::Click)
    } else {
        None
    }
}

/// The state after switching to `action`.
pub open spec fn with_action(st: ClickModeState, st2: ClickModeState, action: ClickAction) -> bool {
    match st {
        ClickModeState::Inactive => st2 == st,
        ClickModeState::ShowingHints { input_buffer, element_count, wrong_second_key, .. } => showing(
            st2,
            input_buffer@,
            element_count as nat,
            action,
            wrong_second_key,
        ),
        ClickModeState::Searching { query, match_count, .. } => searching(
            st2,
            query@,
            match_count as nat,
            action,
        ),
    }
}

/// The state after removing the last input character.
pub open spec fn without_last(st: ClickModeState, st2: ClickModeState) -> bool {
    match st {
        ClickModeState::Inactive => st2 == st,
        ClickModeState::ShowingHints {
            input_buffer,
            element_count,
            click_action,
            wrong_second_key,
        } => showing(
            st2,
            if input_buffer@.len() == 0 {
                input_buffer@
            } else {
                input_buffer@.drop_last()
            },
            element_count as nat,
            click_action,
            wrong_second_key,
        ),
        ClickModeState::Searching { query, match_count, click_action } => searching(
            st2,
            if query@.len() == 0 {
                query@
            } else {
                query@.drop_last()
            },
            match_count as nat,
            click_action,
        ),
    }
}

/// Whether the event has no modifier among Shift, Control, Option, Command.
pub open spec fn unmodified(event: KeyEvent) -> bool {
    !event.modifiers.shift && !event.modifiers.control && !event.modifiers.option
        && !event.modifiers.command
}

/// What a key-down of key `k` does in click mode, from manager `old` to
/// manager `new` with effect `e`.
pub open spec fn click_key_post(
    old: ClickModeManager,
    new: ClickModeManager,
    event: KeyEvent,
    k: KeyCode,
    e: ClickKeyEffect,
) -> bool {
    if k == KeyCode::Escape {
        e is Deactivated && new.cur_state() is Inactive && new.targets().len() == 0 && new.action()
            == ClickAction::Click
    } else if k == KeyCode::Delete {
        e is InputCleared && without_last(old.cur_state(), new.cur_state()) && new.targets()
            == old.targets() && new.action() == old.action()
    } else if k == KeyCode::Return {
        e is Nothing && new.cur_state() == old.cur_state() && new.targets() == old.targets()
            && new.action() == old.action()
    } else if unmodified(event) && key_char(k) is Some && switch_action(key_char(k)->0) is Some {
        let a = switch_action(key_char(k)->0)->0;
        e == ClickKeyEffect::ActionChanged(a) && with_action(old.cur_state(), new.cur_state(), a)
            && new.targets() == old.targets() && new.action() == a
    } else if key_char(k) is Some && is_alphanumeric_char(key_char(k)->0) {
        e matches ClickKeyEffect::Hint { result, action } && action == old.action() && (if result is Match
            || result is NoMatch {
            hint_input_post(
                old.cur_state(),
                old.targets(),
                old.action(),
                key_char(k)->0,
                old.cur_state(),
                result,
            ) && new.cur_state() is Inactive && new.targets().len() == 0 && new.action()
                == ClickAction::Click
        } else {
            hint_input_post(
                old.cur_state(),
                old.targets(),
                old.action(),
                key_char(k)->0,
                new.cur_state(),
                result,
            ) && new.targets() == old.targets() && new.action() == old.action()
        })
    } else {
        e is Nothing && new.cur_state() == old.cur_state() && new.targets() == old.targets()
            && new.action() == old.action()
    }
}

/// The command keys of click mode, whatever the state: Escape ends click
/// mode and resets the action to a plain click; Delete keeps the action and
/// the elements; and r, c, d, n pressed without modifiers select the right
/// click, Command-click, double click and plain click.
pub proof fn lemma_click_command_keys(
    old: ClickModeManager,
    new: ClickModeManager,
    event: KeyEvent,
    k: KeyCode,
    e: ClickKeyEffect,
)
    requires
        click_key_post(old, new, event, k, e),
    ensures
        k == KeyCode::Escape ==> e is Deactivated && new.cur_state() is Inactive && new.action()
            == ClickAction::Click,
        k == KeyCode::Delete ==> e is InputCleared && new.action() == old.action() && new.targets()
            == old.targets(),
        k == KeyCode::R && unmodified(event) ==> e == ClickKeyEffect::ActionChanged(ClickAction::RightClick)
            && new.action() == ClickAction::RightClick,
        k == KeyCode::C && unmodified(event) ==> e == ClickKeyEffect::ActionChanged(ClickAction::CmdClick)
            && new.action() == ClickAction::CmdClick,
        k == KeyCode::D && unmodified(event) ==> e == ClickKeyEffect::ActionChanged(ClickAction::DoubleClick)
            && new.action() == ClickAction::DoubleClick,
        k == KeyCode::N && unmodified(event) ==> e == ClickKeyEffect::ActionChanged(ClickAction::Click)
            && new.action() == ClickAction::Click,
{
}

/// Handle a key while click mode is active. Every key is suppressed (the
/// result's first part is always `None`). Key-up and unknown keys do
/// nothing; Escape cancels; Delete removes the last input character; Return
/// does nothing yet; r, c, d, n without modifiers switch the click action;
/// other letters and digits are hint input, and a match or a miss ends
/// click mode.
pub fn handle_click_mode_key(event: KeyEvent, manager: &mut ClickModeManager) -> (r: (
    Option<KeyEvent>,
    ClickKeyEffect,
))
    ensures
        r.0 is None,
        !event.is_key_down || (forall|k: KeyCode| raw_code(k) != event.code) ==> r.1 is Nothing
            && final(manager).cur_state() == old(manager).cur_state() && final(manager).targets()
            == old(manager).targets() && final(manager).action() == old(manager).action(),
        forall|k: KeyCode|
            event.is_key_down && raw_code(k) == event.code ==> click_key_post(
                *old(manager),
                *final(manager),
                event,
                k,
                r.1,
            ),
{
    if !event.is_key_down {
        return (None, ClickKeyEffect::Nothing);
    }
    let keycode = match event.keycode() {
        Some(k) => k,
        None => return (None, ClickKeyEffect::Nothing),
    };
    proof {
        crate::keycode::lemma_raw_code_injective_all();
    }
    match keycode {
        KeyCode::Escape => {
            manager.deactivate();
            return (None, ClickKeyEffect::Deactivated);
        },
        KeyCode::Delete => {
            manager.clear_last_input();
            return (None, ClickKeyEffect::InputCleared);
        },
        KeyCode::Return => {
            return (None, ClickKeyEffect::Nothing);
        },
        _ => {},
    }
    let no_modifiers = !event.modifiers.shift && !event.modifiers.control && !event.modifiers.option
        && !event.modifiers.command;
    if no_modifiers {
        if let Some(c) = keycode.to_char() {
            if let Some(action) = action_switch(c) {
                manager.set_click_action(action);
                return (None, ClickKeyEffect::ActionChanged(action));
            }
        }
    }
    if let Some(c) = keycode.to_char() {
        if char_is_alphanumeric(c) {
            let click_action = manager.get_click_action();
            let result = manager.handle_hint_input(c);
            match result {
                HintInputResult::Match(element) => {
                    manager.deactivate();
                    return (
                        None,
                        ClickKeyEffect::Hint {
                            result: HintInputResult::Match(element),
                            action: click_action,
                        },
                    );
                },
                HintInputResult::NoMatch => {
                    manager.deactivate();
                    return (
                        None,
                        ClickKeyEffect::Hint { result: HintInputResult::NoMatch, action: click_action },
                    );
                },
                other => {
                    return (None, ClickKeyEffect::Hint { result: other, action: click_action });
                },
            }
        }
    }
    (None, ClickKeyEffect::Nothing)
}

} // verus!
