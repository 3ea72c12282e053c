//! Hint labels for Click Mode.
//!
//! Labels are short, easy-to-type strings taken from a character set, home
//! row first: every single character, then every pair, then every triple
//! (and longer ones after those), each uppercased. Typed input selects the hint it equals and keeps the
//! hints it is a prefix of.

use vstd::prelude::*;
use vstd::arithmetic::div_mod::{
    lemma_div_is_ordered, lemma_div_nonincreasing, lemma_fundamental_div_mod, lemma_mod_bound,
};

use crate::text::{
    decimal, is_prefix, push_char, starts_with, str_eq, to_uppercase, unicode_upper,
    usize_to_decimal,
};

verus! {

/// Default hint characters: home row first, then the other rows.
pub const DEFAULT_HINT_CHARS: &'static str = "asdfghjklqwertyuiopzxcvbnm";

/// The `t`-th label over the characters `c`, before uppercasing. Labels are
/// numbered in bijective base `n` over `c`: first every single character,
/// then every pair, then every triple and so on, each group in the order of
/// `c` with the first position varying slowest.
pub open spec fn hint_label(c: Seq<char>, t: nat) -> Seq<char>
    decreases t,
{
    let n = c.len();
    if n == 0 {
        Seq::empty()
    } else if t < n {
        seq![c[t as int]]
    } else {
        proof {
            lemma_parent_earlier(t, n);
        }
        hint_label(c, (t / n - 1) as nat).push(c[(t % n) as int])
    }
}

/// What `generate_hints(count, chars)` returns: nothing for zero hints; the
/// decimal indices when the character set is empty; otherwise the first
/// `count` labels, uppercased.
pub open spec fn hints_spec(count: nat, c: Seq<char>, r: Seq<Seq<char>>) -> bool {
    if count == 0 {
        r.len() == 0
    } else if c.len() == 0 {
        r.len() == count && forall|i: int| 0 <= i < count ==> #[trigger] r[i] == decimal(i as nat)
    } else {
        &&& r.len() == count
        &&& forall|t: int| 0 <= t < r.len() ==> #[trigger] r[t] == unicode_upper(hint_label(c, t as nat))
    }
}

/// The views of a sequence of strings.
pub open spec fn views(s: Seq<String>) -> Seq<Seq<char>> {
    s.map_values(|h: String| h@)
}

/// Over a non-empty character set, the labels at and after position `n`
/// are built on the label at `t / n - 1`, which comes earlier.
pub proof fn lemma_parent_earlier(t: nat, n: nat)
    requires
        n > 0,
        t >= n,
    ensures
        t / n >= 1,
        t / n - 1 < t,
{
    lemma_div_nonincreasing(t as int, n as int);
    lemma_fundamental_div_mod(t as int, n as int);
    lemma_mod_bound(t as int, n as int);
    assert(t / n >= 1) by (nonlinear_arith)
        requires
            t == n * (t / n) + t % n,
            0 <= t % n < n,
            t >= n,
    ;
}

/// Every label over a non-empty character set has at least one character,
/// and those from position `n` on have at least two.
pub proof fn lemma_hint_label_len(c: Seq<char>, t: nat)
    requires
        c.len() > 0,
    ensures
        hint_label(c, t).len() >= 1,
        t >= c.len() ==> hint_label(c, t).len() >= 2,
    decreases t,
{
    let n = c.len();
    if t >= n {
        lemma_parent_earlier(t, n);
        lemma_hint_label_len(c, (t / n - 1) as nat);
    }
}

/// Labels never get shorter along the numbering: all single characters come
/// before all pairs, all pairs before all triples, and so on.
pub proof fn lemma_hint_label_len_ordered(c: Seq<char>, t1: nat, t2: nat)
    requires
        c.len() > 0,
        t1 <= t2,
    ensures
        hint_label(c, t1).len() <= hint_label(c, t2).len(),
    decreases t2,
{
    let n = c.len();
    lemma_hint_label_len(c, t1);
    lemma_hint_label_len(c, t2);
    if t1 >= n {
        lemma_parent_earlier(t1, n);
        lemma_parent_earlier(t2, n);
        lemma_div_is_ordered(t1 as int, t2 as int, n as int);
        lemma_hint_label_len_ordered(c, (t1 / n - 1) as nat, (t2 / n - 1) as nat);
    }
}

/// Distinct positions give distinct labels (before uppercasing), provided
/// the characters are distinct.
pub proof fn lemma_hint_labels_distinct(c: Seq<char>, t1: nat, t2: nat)
    requires
        c.no_duplicates(),
        c.len() > 0,
        t1 != t2,
    ensures
        hint_label(c, t1) != hint_label(c, t2),
    decreases t1 + t2,
{
    let n = c.len();
    let l1 = hint_label(c, t1);
    let l2 = hint_label(c, t2);
    lemma_hint_label_len(c, t1);
    lemma_hint_label_len(c, t2);
    if t1 < n && t2 < n {
        assert(l1[0] != l2[0]);
    } else if t1 < n || t2 < n {
        assert(l1.len() != l2.len());
    } else {
        lemma_parent_earlier(t1, n);
        lemma_parent_earlier(t2, n);
        lemma_mod_bound(t1 as int, n as int);
        lemma_mod_bound(t2 as int, n as int);
        let p1 = hint_label(c, (t1 / n - 1) as nat);
        let p2 = hint_label(c, (t2 / n - 1) as nat);
        if t1 % n != t2 % n {
            assert(l1[l1.len() - 1] == c[(t1 % n) as int]);
            assert(l2[l2.len() - 1] == c[(t2 % n) as int]);
            assert(l1[l1.len() - 1] != l2[l2.len() - 1]);
        } else {
            lemma_fundamental_div_mod(t1 as int, n as int);
            lemma_fundamental_div_mod(t2 as int, n as int);
            assert(t1 / n != t2 / n);
            lemma_hint_labels_distinct(c, (t1 / n - 1) as nat, (t2 / n - 1) as nat);
            if l1 == l2 {
                assert(l1.drop_last() =~= p1);
                assert(l2.drop_last() =~= p2);
            }
        }
    }
}

/// The default hint characters are distinct, so the labels generated over
/// them are distinct (before uppercasing).
pub proof fn lemma_default_labels_distinct(t1: nat, t2: nat)
    requires
        t1 != t2,
    ensures
        hint_label(DEFAULT_HINT_CHARS@, t1) != hint_label(DEFAULT_HINT_CHARS@, t2),
{
    reveal_strlit("asdfghjklqwertyuiopzxcvbnm");
    let c = DEFAULT_HINT_CHARS@;
    assert(c.no_duplicates()) by {
        assert forall|i: int, j: int| 0 <= i < c.len() && 0 <= j < c.len() && i != j implies c[i] != c[j] by {
            assert(c =~= seq!['a', 's', 'd', 'f', 'g', 'h', 'j', 'k', 'l', 'q', 'w', 'e', 'r', 't', 'y',
                'u', 'i', 'o', 'p', 'z', 'x', 'c', 'v', 'b', 'n', 'm']);
        }
    }
    lemma_hint_labels_distinct(c, t1, t2);
}

/// The characters of `s`, in order.
pub fn chars_of(s: &str) -> (r: Vec<char>)
    ensures
        r@ == s@,
{
    let n = s.unicode_len();
    let mut out: Vec<char> = Vec::new();
    let mut i: usize = 0;
    while i < n
        invariant
            n == s@.len(),
            i <= n,
            out@ == s@.subrange(0, i as int),
        decreases n - i,
    {
        out.push(s.get_char(i));
        proof {
            assert(out@ =~= s@.subrange(0, i + 1));
        }
        i = i + 1;
    }
    proof {
        assert(out@ =~= s@);
    }
    out
}

fn label_of(c: &Vec<char>) -> (r: String)
    ensures
        r@ == unicode_upper(c@),
{
    let mut s = String::new();
    let mut i: usize = 0;
    while i < c.len()
        invariant
            i <= c@.len(),
            s@ == c@.subrange(0, i as int),
        decreases c@.len() - i,
    {
        push_char(&mut s, c[i]);
        proof {
            assert(s@ =~= c@.subrange(0, i + 1));
        }
        i = i + 1;
    }
    proof {
        assert(s@ =~= c@);
    }
    to_uppercase(s.as_str())
}

/// The characters of the `t`-th label over `c`, before uppercasing.
fn raw_label(c: &Vec<char>, t: usize) -> (r: Vec<char>)
    requires
        c@.len() > 0,
    ensures
        r@ == hint_label(c@, t as nat),
    decreases t,
{
    let n = c.len();
    if t < n {
        let mut one: Vec<char> = Vec::new();
        one.push(c[t]);
        proof {
            assert(one@ =~= hint_label(c@, t as nat));
        }
        one
    } else {
        proof {
            lemma_parent_earlier(t as nat, n as nat);
            lemma_mod_bound(t as int, n as int);
        }
        let mut label = raw_label(c, t / n - 1);
        label.push(c[t % n]);
        label
    }
}

/// Hint labels for `count` elements over the characters of `chars`:
/// exactly `count` of them.
///
/// Single characters first, then two-character combinations, then three,
/// and longer ones if still needed; each label is uppercased. With no
/// characters the labels are the decimal indices.
pub fn generate_hints(count: usize, chars: &str) -> (r: Vec<String>)
    ensures
        hints_spec(count as nat, chars@, views(r@)),
{
    let mut hints: Vec<String> = Vec::new();
    if count == 0 {
        proof {
            assert(views(hints@) =~= Seq::<Seq<char>>::empty());
        }
        return hints;
    }
    let c = chars_of(chars);
    let n = c.len();
    if n == 0 {
        let mut i: usize = 0;
        while i < count
            invariant
                i <= count,
                hints@.len() == i,
                forall|k: int| 0 <= k < i ==> #[trigger] hints@[k]@ == decimal(k as nat),
            decreases count - i,
        {
            hints.push(usize_to_decimal(i));
            i = i + 1;
        }
        proof {
            assert forall|k: int| 0 <= k < count implies #[trigger] views(hints@)[k] == decimal(
                k as nat,
            ) by {
                assert(views(hints@)[k] == hints@[k]@);
            }
        }
        return hints;
    }
    let mut t: usize = 0;
    while t < count
        invariant
            c@ == chars@,
            c@.len() > 0,
            t <= count,
            hints@.len() == t,
            forall|k: int| 0 <= k < t ==> #[trigger] hints@[k]@ == unicode_upper(hint_label(c@, k as nat)),
        decreases count - t,
    {
        let raw = raw_label(&c, t);
        hints.push(label_of(&raw));
        t = t + 1;
    }
    proof {
        assert forall|k: int| 0 <= k < views(hints@).len() implies #[trigger] views(hints@)[k]
            == unicode_upper(hint_label(chars@, k as nat)) by {
            assert(views(hints@)[k] == hints@[k]@);
        }
    }
    hints
}

/// How an input relates to a hint, both uppercased: `Some(true)` when they
/// are equal, `Some(false)` when the input is a proper start of the hint,
/// `None` otherwise.
pub open spec fn hint_match(hint: Seq<char>, input: Seq<char>) -> Option<bool> {
    if unicode_upper(hint) == unicode_upper(input) {
        Some(true)
    } else if is_prefix(unicode_upper(input), unicode_upper(hint)) {
        Some(false)
    } else {
        None
    }
}

/// Typing a hint in full, in any case, selects it; a partial match is a
/// strictly shorter start of the hint; and any match means the typed text
/// starts the hint, so text that is not a start of it never matches.
pub proof fn lemma_hint_match_laws(hint: Seq<char>, input: Seq<char>)
    ensures
        hint_match(hint, hint) == Some(true),
        unicode_upper(input) == unicode_upper(hint) ==> hint_match(hint, input) == Some(true),
        hint_match(hint, input) == Some(false) ==> unicode_upper(input).len() < unicode_upper(hint).len()
            && unicode_upper(hint).subrange(0, unicode_upper(input).len() as int) == unicode_upper(input),
        hint_match(hint, input) is Some ==> is_prefix(unicode_upper(input), unicode_upper(hint)),
        !is_prefix(unicode_upper(input), unicode_upper(hint)) ==> hint_match(hint, input) is None,
{
    let u = unicode_upper(hint);
    assert(u.subrange(0, u.len() as int) =~= u);
    if hint_match(hint, input) == Some(false) {
        let v = unicode_upper(input);
        if v.len() == u.len() {
            assert(u.subrange(0, u.len() as int) =~= u);
        }
    }
}

/// Whether a hint matches the typed input: exactly (activate), partially
/// (keep waiting) or not at all (filter it out). Case is ignored.
pub fn match_hint(hint: &str, input: &str) -> (r: Option<bool>)
    ensures
        r == hint_match(hint@, input@),
{
    let hint_upper = to_uppercase(hint);
    let input_upper = to_uppercase(input);
    if str_eq(hint_upper.as_str(), input_upper.as_str()) {
        Some(true)
    } else if starts_with(hint_upper.as_str(), input_upper.as_str()) {
        Some(false)
    } else {
        None
    }
}

/// The indices below `n` of the hints that the input matches, exactly or
/// partially, in increasing order.
pub open spec fn matching_indices(hints: Seq<Seq<char>>, input: Seq<char>, n: nat) -> Seq<usize>
    decreases n,
{
    if n == 0 {
        Seq::empty()
    } else {
        let prev = matching_indices(hints, input, (n - 1) as nat);
        if hint_match(hints[n - 1], input) is Some {
            prev.push((n - 1) as usize)
        } else {
            prev
        }
    }
}

/// The indices of the hints that the input matches, exactly or partially.
pub fn filter_by_prefix(hints: &[String], input: &str) -> (r: Vec<usize>)
    ensures
        r@ == matching_indices(views(hints@), input@, hints@.len()),
{
    let mut out: Vec<usize> = Vec::new();
    let mut i: usize = 0;
    while i < hints.len()
        invariant
            i <= hints@.len(),
            out@ == matching_indices(views(hints@), input@, i as nat),
        decreases hints@.len() - i,
    {
        proof {
            assert(views(hints@)[i as int] == hints@[i as int]@);
        }
        if match_hint(hints[i].as_str(), input).is_some() {
            out.push(i);
        }
        i = i + 1;
    }
    out
}

/// Whether a hint window stays visible for the typed input: always for an
/// empty input, otherwise when the hint starts with the uppercased input.
pub open spec fn hint_visible(hint: Seq<char>, input: Seq<char>) -> bool {
    unicode_upper(input).len() == 0 || is_prefix(unicode_upper(input), hint)
}

/// Visibility of each hint window for the typed input.
pub fn filter_hints(input: &str, hints: &[String]) -> (r: Vec<bool>)
    ensures
        r@.len() == hints@.len(),
        forall|i: int| 0 <= i < hints@.len() ==> #[trigger] r@[i] == hint_visible(hints@[i]@, input@),
{
    let input_upper = to_uppercase(input);
    let empty = input_upper.as_str().unicode_len() == 0;
    let mut out: Vec<bool> = Vec::new();
    let mut i: usize = 0;
    while i < hints.len()
        invariant
            i <= hints@.len(),
            input_upper@ == unicode_upper(input@),
            empty == (input_upper@.len() == 0),
            out@.len() == i,
            forall|k: int| 0 <= k < i ==> #[trigger] out@[k] == hint_visible(hints@[k]@, input@),
        decreases hints@.len() - i,
    {
        let visible = empty || starts_with(hints[i].as_str(), input_upper.as_str());
        out.push(visible);
        i = i + 1;
    }
    out
}

/// What a hint window shows after input: hidden, or visible with the label
/// text replaced by the part not yet typed.
#[derive(Debug, PartialEq, Eq)]
pub struct HintUpdate {
    pub visible: bool,
    /// New label text, when the window shows the untyped rest of the hint.
    pub text: Option<String>,
}

/// The text a visible hint window switches to: the rest of the hint after
/// the typed input, when input was typed and the hint is longer.
pub open spec fn remaining_text(hint: Seq<char>, input: Seq<char>) -> Option<Seq<char>> {
    let typed = unicode_upper(input);
    if hint_visible(hint, input) && typed.len() > 0 && hint.len() > typed.len() {
        Some(hint.subrange(typed.len() as int, hint.len() as int))
    } else {
        None
    }
}

/// Visibility of each hint window and the untyped rest of each visible hint.
pub fn filter_hints_with_input(input: &str, hints: &[String]) -> (r: Vec<HintUpdate>)
    ensures
        r@.len() == hints@.len(),
        forall|i: int|
            0 <= i < hints@.len() ==> {
                &&& (#[trigger] r@[i]).visible == hint_visible(hints@[i]@, input@)
                &&& match remaining_text(hints@[i]@, input@) {
                    Some(t) => r@[i].text matches Some(s) && s@ == t,
                    None => r@[i].text is None,
                }
            },
{
    let input_upper = to_uppercase(input);
    let input_len = input_upper.as_str().unicode_len();
    let mut out: Vec<HintUpdate> = Vec::new();
    let mut i: usize = 0;
    while i < hints.len()
        invariant
            i <= hints@.len(),
            input_upper@ == unicode_upper(input@),
            input_len == input_upper@.len(),
            out@.len() == i,
            forall|k: int|
                0 <= k < i ==> {
                    &&& (#[trigger] out@[k]).visible == hint_visible(hints@[k]@, input@)
                    &&& match remaining_text(hints@[k]@, input@) {
                        Some(t) => out@[k].text matches Some(s) && s@ == t,
                        None => out@[k].text is None,
                    }
                },
        decreases hints@.len() - i,
    {
        let hint = hints[i].as_str();
        let visible = input_len == 0 || starts_with(hint, input_upper.as_str());
        let hint_len = hint.unicode_len();
        let text = if visible && input_len > 0 && hint_len > input_len {
            Some(owned_substring(hint, input_len, hint_len))
        } else {
            None
        };
        out.push(HintUpdate { visible, text });
        i = i + 1;
    }
    out
}

fn owned_substring(s: &str, from: usize, to: usize) -> (r: String)
    requires
        from <= to <= s@.len(),
    ensures
        r@ == s@.subrange(from as int, to as int),
{
    let mut out = String::new();
    let mut i: usize = from;
    while i < to
        invariant
            from <= i <= to,
            to <= s@.len(),
            out@ == s@.subrange(from as int, i as int),
        decreases to - i,
    {
        push_char(&mut out, s.get_char(i));
        proof {
            assert(out@ =~= s@.subrange(from as int, i + 1));
        }
        i = i + 1;
    }
    out
}

} // verus!
