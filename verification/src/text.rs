//! Text helpers shared by the key, hint and configuration logic.
//!
//! Unicode case mapping comes from std: on ASCII strings it is stated
//! character by character, on others it is named, not rebuilt. The
//! contracts of the rest of the library speak of `unicode_upper` and
//! `unicode_lower`. The small ASCII and substring predicates are stated as
//! spec functions and implemented against them.

use vstd::prelude::*;

verus! {

/// The full Unicode uppercase mapping of a string that holds a non-ASCII
/// character, as `str::to_uppercase` gives it.
pub uninterp spec fn full_uppercase(s: Seq<char>) -> Seq<char>;

/// The full Unicode lowercase mapping of a string that holds a non-ASCII
/// character, as `str::to_lowercase` gives it.
pub uninterp spec fn full_lowercase(s: Seq<char>) -> Seq<char>;

/// Whether every character is ASCII.
pub open spec fn all_ascii(s: Seq<char>) -> bool {
    forall|i: int| 0 <= i < s.len() ==> (s[i] as u32) < 128
}

/// ASCII uppercase of one character; other characters are unchanged.
pub open spec fn ascii_upper(c: char) -> char {
    if 'a' <= c && c <= 'z' {
        ((c as u32) - 32) as char
    } else {
        c
    }
}

/// The Unicode uppercase of a string's characters: an ASCII string maps
/// character by character, `a` to `z` becoming `A` to `Z`; any other
/// string gets the full mapping.
#[verifier::opaque]
pub open spec fn unicode_upper(s: Seq<char>) -> Seq<char> {
    if all_ascii(s) {
        s.map_values(|c: char| ascii_upper(c))
    } else {
        full_uppercase(s)
    }
}

/// The Unicode lowercase of a string's characters: an ASCII string maps
/// character by character, `A` to `Z` becoming `a` to `z`; any other
/// string gets the full mapping.
#[verifier::opaque]
pub open spec fn unicode_lower(s: Seq<char>) -> Seq<char> {
    if all_ascii(s) {
        s.map_values(|c: char| ascii_lower(c))
    } else {
        full_lowercase(s)
    }
}

/// On ASCII strings the case mappings work character by character.
pub proof fn lemma_ascii_case(s: Seq<char>)
    requires
        all_ascii(s),
    ensures
        unicode_upper(s) == s.map_values(|c: char| ascii_upper(c)),
        unicode_lower(s) == s.map_values(|c: char| ascii_lower(c)),
{
    reveal(unicode_upper);
    reveal(unicode_lower);
}

/// What `char::is_alphanumeric` answers for a non-ASCII character.
pub uninterp spec fn unicode_alphanumeric(c: char) -> bool;

/// Whether a character is an ASCII letter or digit.
pub open spec fn ascii_alphanumeric(c: char) -> bool {
    ('a' <= c && c <= 'z') || ('A' <= c && c <= 'Z') || ('0' <= c && c <= '9')
}

/// Whether a character is alphabetic or numeric in Unicode: for an ASCII
/// character, exactly the letters and digits.
pub open spec fn is_alphanumeric_char(c: char) -> bool {
    if (c as u32) < 128 {
        ascii_alphanumeric(c)
    } else {
        unicode_alphanumeric(c)
    }
}

/// Calls `str::to_uppercase`. Claims that the result is the Unicode
/// uppercase mapping of the input's characters: for an ASCII input, each
/// of `a` to `z` becomes `A` to `Z` and every other character stays, as
/// std documents; for any other input, the full mapping, which is named
/// and not spelled out.
#[verifier::external_body]
pub(crate) fn to_uppercase(s: &str) -> (r: String)
    ensures
        r@ == unicode_upper(s@),
        !all_ascii(s@) ==> r@ == full_uppercase(s@),
{
    s.to_uppercase()
}

/// Calls `str::to_lowercase`. Claims that the result is the Unicode
/// lowercase mapping of the input's characters: for an ASCII input, each
/// of `A` to `Z` becomes `a` to `z` and every other character stays, as
/// std documents; for any other input, the full mapping, which is named
/// and not spelled out.
#[verifier::external_body]
pub(crate) fn to_lowercase(s: &str) -> (r: String)
    ensures
        r@ == unicode_lower(s@),
        !all_ascii(s@) ==> r@ == full_lowercase(s@),
{
    s.to_lowercase()
}

/// Calls `char::is_alphanumeric`. Claims that an ASCII character is
/// alphanumeric exactly when it is a letter or a digit, as std documents;
/// for other characters the answer is named, not spelled out.
#[verifier::external_body]
pub(crate) fn char_is_alphanumeric(c: char) -> (r: bool)
    ensures
        r == is_alphanumeric_char(c),
        (c as u32) >= 128 ==> r == unicode_alphanumeric(c),
{
    c.is_alphanumeric()
}

/// Calls `String::push`, which appends one character.
#[verifier::external_body]
pub(crate) fn push_char(s: &mut String, c: char)
    ensures
        final(s)@ == old(s)@.push(c),
{
    s.push(c)
}

/// Calls `String::pop`, which removes and returns the last character, or
/// returns `None` and leaves an empty string alone.
#[verifier::external_body]
pub(crate) fn pop_char(s: &mut String) -> (r: Option<char>)
    ensures
        old(s)@.len() == 0 ==> r is None && final(s)@ == old(s)@,
        old(s)@.len() > 0 ==> r == Some(old(s)@.last()) && final(s)@ == old(s)@.drop_last(),
{
    s.pop()
}

/// Whether two string slices hold the same characters.
pub fn str_eq(a: &str, b: &str) -> (r: bool)
    ensures
        r == (a@ == b@),
{
    let n = a.unicode_len();
    if n != b.unicode_len() {
        return false;
    }
    let mut i: usize = 0;
    while i < n
        invariant
            n == a@.len(),
            n == b@.len(),
            i <= n,
            forall|j: int| 0 <= j < i ==> a@[j] == b@[j],
        decreases n - i,
    {
        if a.get_char(i) != b.get_char(i) {
            return false;
        }
        i = i + 1;
    }
    proof {
        assert(a@ =~= b@);
    }
    true
}

/// A fresh `String` holding the characters of `s`.
pub fn owned(s: &str) -> (r: String)
    ensures
        r@ == s@,
{
    s.to_owned()
}

/// ASCII lowercase of one character; other characters are unchanged.
pub open spec fn ascii_lower(c: char) -> char {
    if 'A' <= c && c <= 'Z' {
        ((c as u32) + 32) as char
    } else {
        c
    }
}

/// Lowercases an ASCII letter and leaves every other character alone.
pub fn char_to_ascii_lowercase(c: char) -> (r: char)
    ensures
        r == ascii_lower(c),
{
    if 'A' <= c && c <= 'Z' {
        let v: u8 = (c as u8) + 32;
        proof {
            assert(v as char == ((c as u32) + 32) as char);
        }
        v as char
    } else {
        c
    }
}

/// ASCII case-insensitive equality of two character sequences.
pub open spec fn eq_ignore_ascii_case_spec(a: Seq<char>, b: Seq<char>) -> bool {
    &&& a.len() == b.len()
    &&& forall|i: int| 0 <= i < a.len() ==> ascii_lower(#[trigger] a[i]) == ascii_lower(b[i])
}

/// Whether two strings match when ASCII letters are compared without case.
pub fn eq_ignore_ascii_case(a: &str, b: &str) -> (r: bool)
    ensures
        r == eq_ignore_ascii_case_spec(a@, b@),
{
    let n = a.unicode_len();
    if n != b.unicode_len() {
        return false;
    }
    let mut i: usize = 0;
    while i < n
        invariant
            n == a@.len(),
            n == b@.len(),
            i <= n,
            forall|j: int| 0 <= j < i ==> ascii_lower(#[trigger] a@[j]) == ascii_lower(b@[j]),
        decreases n - i,
    {
        let ca = char_to_ascii_lowercase(a.get_char(i));
        let cb = char_to_ascii_lowercase(b.get_char(i));
        if ca != cb {
            return false;
        }
        i = i + 1;
    }
    true
}

/// `p` is a prefix of `s`.
pub open spec fn is_prefix(p: Seq<char>, s: Seq<char>) -> bool {
    p.len() <= s.len() && s.subrange(0, p.len() as int) == p
}

/// `p` occurs in `s` at position `i`.
pub open spec fn occurs_at(p: Seq<char>, s: Seq<char>, i: int) -> bool {
    0 <= i && i + p.len() <= s.len() && s.subrange(i, i + p.len()) == p
}

/// `p` occurs somewhere in `s`.
pub open spec fn is_infix(p: Seq<char>, s: Seq<char>) -> bool {
    exists|i: int| occurs_at(p, s, i)
}

/// Whether `p` occurs in `s` at character position `start`.
fn matches_at(s: &str, p: &str, start: usize) -> (r: bool)
    requires
        start + p@.len() <= s@.len(),
        s@.len() <= usize::MAX,
    ensures
        r == (s@.subrange(start as int, start + p@.len()) == p@),
{
    let m = p.unicode_len();
    let mut j: usize = 0;
    while j < m
        invariant
            m == p@.len(),
            start + m <= s@.len(),
            s@.len() <= usize::MAX,
            j <= m,
            forall|k: int| 0 <= k < j ==> s@[start + k] == p@[k],
        decreases m - j,
    {
        if s.get_char(start + j) != p.get_char(j) {
            proof {
                assert(s@.subrange(start as int, start + p@.len())[j as int] != p@[j as int]);
            }
            return false;
        }
        j = j + 1;
    }
    proof {
        assert(s@.subrange(start as int, start + p@.len()) =~= p@);
    }
    true
}

/// Whether `s` starts with the characters of `p`.
pub fn starts_with(s: &str, p: &str) -> (r: bool)
    ensures
        r == is_prefix(p@, s@),
{
    if p.unicode_len() > s.unicode_len() {
        return false;
    }
    matches_at(s, p, 0)
}

/// Whether the characters of `p` occur somewhere in `s`.
pub fn contains(s: &str, p: &str) -> (r: bool)
    ensures
        r == is_infix(p@, s@),
{
    let n = s.unicode_len();
    let m = p.unicode_len();
    if m > n {
        proof {
            assert forall|i: int| !occurs_at(p@, s@, i) by {}
        }
        return false;
    }
    let mut i: usize = 0;
    loop
        invariant
            n == s@.len(),
            m == p@.len(),
            i + m <= n,
            forall|k: int| 0 <= k < i ==> !occurs_at(p@, s@, k),
        ensures
            forall|k: int| 0 <= k && k + m <= n ==> !occurs_at(p@, s@, k),
        decreases n - m - i,
    {
        if matches_at(s, p, i) {
            proof {
                assert(occurs_at(p@, s@, i as int));
            }
            return true;
        }
        if i + m == n {
            break;
        }
        i = i + 1;
    }
    proof {
        assert forall|k: int| !occurs_at(p@, s@, k) by {
            if 0 <= k && k + m <= n {
            }
        }
    }
    false
}

/// The ASCII digit for a value below ten.
pub open spec fn digit_char(d: nat) -> char {
    ('0' as u32 + d) as char
}

/// Decimal rendering of a natural number, as `usize::to_string` writes it.
pub open spec fn decimal(n: nat) -> Seq<char>
    decreases n,
{
    if n < 10 {
        seq![digit_char(n)]
    } else {
        decimal(n / 10).push(digit_char(n % 10))
    }
}

/// The decimal string of `n`.
pub fn usize_to_decimal(n: usize) -> (r: String)
    ensures
        r@ == decimal(n as nat),
{
    // Collect digits least significant first.
    let mut digits: Vec<char> = Vec::new();
    let mut m: usize = n;
    loop
        invariant_except_break
            m <= n,
            decimal(n as nat) == decimal(m as nat) + digits@.reverse(),
        ensures
            decimal(n as nat) == digits@.reverse(),
        decreases m,
    {
        let d: u32 = (m % 10) as u32;
        let c: char = char_from_digit(d);
        let ghost old_digits = digits@;
        if m < 10 {
            digits.push(c);
            proof {
                assert(decimal(m as nat) == seq![c]);
                assert(digits@.reverse() =~= seq![c] + old_digits.reverse());
            }
            break;
        }
        proof {
            assert(decimal(m as nat) == decimal((m / 10) as nat).push(c));
        }
        digits.push(c);
        proof {
            assert(digits@.reverse() =~= seq![c] + old_digits.reverse());
            assert(decimal((m / 10) as nat).push(c) + old_digits.reverse()
                =~= decimal((m / 10) as nat) + (seq![c] + old_digits.reverse()));
        }
        m = m / 10;
    }
    let mut r = String::new();
    let len = digits.len();
    let mut i: usize = 0;
    while i < len
        invariant
            len == digits@.len(),
            i <= len,
            decimal(n as nat) == digits@.reverse(),
            r@ == digits@.reverse().subrange(0, i as int),
        decreases len - i,
    {
        let c = digits[len - 1 - i];
        push_char(&mut r, c);
        proof {
            assert(digits@.reverse()[i as int] == c);
            assert(digits@.reverse().subrange(0, i + 1) =~= digits@.reverse().subrange(0, i as int).push(c));
        }
        i = i + 1;
    }
    proof {
        assert(digits@.reverse().subrange(0, len as int) =~= digits@.reverse());
    }
    r
}

/// The ASCII digit for `d`, which is below ten.
fn char_from_digit(d: u32) -> (c: char)
    requires
        d < 10,
    ensures
        c == digit_char(d as nat),
{
    let b: u8 = 48u8 + (d as u8);
    proof {
        assert(b as char == ('0' as u32 + d) as char);
    }
    b as char
}

} // verus!
