//! Layout of the mode indicator: an ordered list of rows.
//!
//! A row is the mode character (one to three logical rows tall) or a
//! widget. Loading settings migrates the legacy top/bottom widget fields
//! into rows and repairs the list: no "None" widgets, one mode character at
//! most, sizes within range, and at most five logical rows, trimming widgets
//! from the end.

use vstd::prelude::*;

use crate::text::{owned, str_eq};

verus! {

/// A row of the indicator layout.
#[derive(Debug, Clone, PartialEq, Eq)]
pub enum RowItem {
    /// The Vim mode character, `size` logical rows tall.
    ModeChar { size: u8 },
    /// A widget such as "Time" or "Battery".
    Widget { widget_type: String },
}

/// Size of the mode character when the settings give none.
pub fn default_mode_char_size() -> (r: u8)
    ensures
        r == 2,
{
    2
}

/// A widget of type "None", which shows nothing.
pub open spec fn is_none_widget(r: RowItem) -> bool {
    r matches RowItem::Widget { widget_type } && widget_type@ == "None"@
}

/// The rows without "None" widgets.
pub open spec fn drop_none(rows: Seq<RowItem>) -> Seq<RowItem> {
    rows.filter(|r: RowItem| !is_none_widget(r))
}

/// Whether some row is the mode character.
pub open spec fn has_mode(rows: Seq<RowItem>) -> bool {
    exists|i: int| 0 <= i < rows.len() && (#[trigger] rows[i]) is ModeChar
}

/// The rows with every mode character after the first removed.
pub open spec fn first_mode_only(rows: Seq<RowItem>) -> Seq<RowItem>
    decreases rows.len(),
{
    if rows.len() == 0 {
        rows
    } else {
        let prev = first_mode_only(rows.drop_last());
        if rows.last() is ModeChar && has_mode(rows.drop_last()) {
            prev
        } else {
            prev.push(rows.last())
        }
    }
}

/// A mode character size clamped to 1..=3.
pub open spec fn clamp_size(size: u8) -> u8 {
    if size < 1 {
        1
    } else if size > 3 {
        3
    } else {
        size
    }
}

/// A row with its mode character size clamped.
pub open spec fn clamp_row(r: RowItem) -> RowItem {
    match r {
        RowItem::ModeChar { size } => RowItem::ModeChar { size: clamp_size(size) },
        _ => r,
    }
}

/// The rows with every mode character size clamped.
pub open spec fn clamp_rows(rows: Seq<RowItem>) -> Seq<RowItem> {
    rows.map_values(|r: RowItem| clamp_row(r))
}

/// Logical rows a row takes: the mode character its size plus one, a
/// widget one.
pub open spec fn row_weight(r: RowItem) -> int {
    match r {
        RowItem::ModeChar { size } => size + 1,
        RowItem::Widget { .. } => 1,
    }
}

/// Logical rows the layout takes.
pub open spec fn total_rows(rows: Seq<RowItem>) -> int
    decreases rows.len(),
{
    if rows.len() == 0 {
        0
    } else {
        total_rows(rows.drop_last()) + row_weight(rows.last())
    }
}

/// The position of the last widget.
pub open spec fn last_widget(rows: Seq<RowItem>) -> Option<int>
    decreases rows.len(),
{
    if rows.len() == 0 {
        None
    } else if rows.last() is Widget {
        Some(rows.len() - 1)
    } else {
        last_widget(rows.drop_last())
    }
}

/// The rows with widgets removed from the end while more than five logical
/// rows are taken.
pub open spec fn trim_rows(rows: Seq<RowItem>) -> Seq<RowItem>
    decreases rows.len(),
{
    if total_rows(rows) <= 5 {
        rows
    } else {
        match last_widget(rows) {
            Some(p) => if 0 <= p < rows.len() {
                trim_rows(rows.remove(p))
            } else {
                rows
            },
            None => rows,
        }
    }
}

/// The layout as `sanitize_rows` repairs it.
pub open spec fn sanitized(rows: Seq<RowItem>) -> Seq<RowItem> {
    trim_rows(clamp_rows(first_mode_only(drop_none(rows))))
}

fn copy_row(r: &RowItem) -> (c: RowItem)
    ensures
        c == *r,
{
    match r {
        RowItem::ModeChar { size } => RowItem::ModeChar { size: *size },
        RowItem::Widget { widget_type } => RowItem::Widget { widget_type: widget_type.clone() },
    }
}

proof fn lemma_last_widget_bounds(rows: Seq<RowItem>)
    ensures
        last_widget(rows) matches Some(p) ==> 0 <= p < rows.len() && rows[p] is Widget,
        last_widget(rows) is None ==> forall|i: int| 0 <= i < rows.len() ==> !(rows[i] is Widget),
    decreases rows.len(),
{
    if rows.len() > 0 {
        lemma_last_widget_bounds(rows.drop_last());
        if last_widget(rows) is None {
            assert forall|i: int| 0 <= i < rows.len() implies !(rows[i] is Widget) by {
                if i < rows.len() - 1 {
                    assert(rows.drop_last()[i] == rows[i]);
                }
            }
        }
    }
}

proof fn lemma_total_prefix(rows: Seq<RowItem>, i: int)
    requires
        0 <= i <= rows.len(),
        forall|k: int| 0 <= k < rows.len() ==> row_weight(#[trigger] rows[k]) >= 0,
    ensures
        total_rows(rows.take(i)) <= total_rows(rows),
    decreases rows.len() - i,
{
    if i < rows.len() {
        lemma_total_prefix(rows, i + 1);
        assert(rows.take(i + 1).drop_last() =~= rows.take(i));
    } else {
        assert(rows.take(i) =~= rows);
    }
}

/// Repair the indicator layout: remove "None" widgets, keep only the first
/// mode character, clamp mode character sizes to 1..=3, and remove widgets
/// from the end while more than five logical rows are taken. The logical
/// rows are summed in a `u8`, so layouts that take more than 255 logical
/// rows after the first three repairs are not accepted.
pub fn sanitize_rows(indicator_rows: &mut Vec<RowItem>)
    requires
        total_rows(clamp_rows(first_mode_only(drop_none(old(indicator_rows)@)))) <= 255,
    ensures
        final(indicator_rows)@ == sanitized(old(indicator_rows)@),
{
    let repaired = repaired_rows(indicator_rows);
    *indicator_rows = trimmed_rows(repaired);
}

/// Repair the layout as `sanitize_rows` does, when its logical rows after
/// the first three repairs fit the `u8` sum; otherwise leave it unchanged.
/// Returns whether it was repaired.
pub fn sanitize_rows_checked(indicator_rows: &mut Vec<RowItem>) -> (done: bool)
    ensures
        done == (total_rows(clamp_rows(first_mode_only(drop_none(old(indicator_rows)@)))) <= 255),
        done ==> final(indicator_rows)@ == sanitized(old(indicator_rows)@),
        !done ==> final(indicator_rows)@ == old(indicator_rows)@,
{
    let repaired = repaired_rows(indicator_rows);
    if !logical_rows_fit(&repaired) {
        return false;
    }
    *indicator_rows = trimmed_rows(repaired);
    true
}

/// Whether the layout takes at most 255 logical rows.
fn logical_rows_fit(rows: &Vec<RowItem>) -> (r: bool)
    ensures
        r == (total_rows(rows@) <= 255),
{
    let mut total: u64 = 0;
    let mut q: usize = 0;
    while q < rows.len()
        invariant
            q <= rows@.len(),
            total == total_rows(rows@.take(q as int)),
            total <= 255,
        decreases rows@.len() - q,
    {
        proof {
            assert(rows@.take(q + 1).drop_last() =~= rows@.take(q as int));
            assert(rows@.take(q + 1).last() == rows@[q as int]);
        }
        match &rows[q] {
            RowItem::ModeChar { size } => {
                total = total + (*size as u64) + 1;
            },
            RowItem::Widget { .. } => {
                total = total + 1;
            },
        }
        if total > 255 {
            proof {
                assert forall|k: int| 0 <= k < rows@.len() implies row_weight(#[trigger] rows@[k]) >= 0 by {}
                lemma_total_prefix(rows@, q + 1);
            }
            return false;
        }
        q = q + 1;
    }
    proof {
        assert(rows@.take(rows@.len() as int) =~= rows@);
    }
    true
}

/// The layout without "None" widgets, with only its first mode character,
/// and with mode character sizes clamped.
fn repaired_rows(indicator_rows: &Vec<RowItem>) -> (r: Vec<RowItem>)
    ensures
        r@ == clamp_rows(first_mode_only(drop_none(indicator_rows@))),
{
    let ghost start = indicator_rows@;
    // Remove "None" widgets.
    let ghost p = |r: RowItem| !is_none_widget(r);
    let mut kept: Vec<RowItem> = Vec::new();
    let mut i: usize = 0;
    while i < indicator_rows.len()
        invariant
            indicator_rows@ == start,
            i <= start.len(),
            p == (|r: RowItem| !is_none_widget(r)),
            kept@ == start.take(i as int).filter(p),
        decreases start.len() - i,
    {
        proof {
            reveal_with_fuel(Seq::filter, 1);
            assert(start.take(i + 1).drop_last() =~= start.take(i as int));
        }
        let none_widget = match &indicator_rows[i] {
            RowItem::Widget { widget_type } => str_eq(widget_type.as_str(), "None"),
            RowItem::ModeChar { .. } => false,
        };
        if !none_widget {
            kept.push(copy_row(&indicator_rows[i]));
        }
        i = i + 1;
    }
    proof {
        assert(start.take(start.len() as int) =~= start);
    }
    // Keep only the first mode character.
    let ghost k0 = kept@;
    let mut single: Vec<RowItem> = Vec::new();
    let mut found = false;
    let mut j: usize = 0;
    while j < kept.len()
        invariant
            kept@ == k0,
            j <= k0.len(),
            single@ == first_mode_only(k0.take(j as int)),
            found == has_mode(k0.take(j as int)),
        decreases k0.len() - j,
    {
        proof {
            assert(k0.take(j + 1).drop_last() =~= k0.take(j as int));
            assert(k0.take(j + 1).last() == k0[j as int]);
            if has_mode(k0.take(j as int)) {
                let w = choose|w: int| 0 <= w < j && (#[trigger] k0.take(j as int)[w]) is ModeChar;
                assert(k0.take(j + 1)[w] is ModeChar);
            }
            if k0[j as int] is ModeChar {
                assert(k0.take(j + 1)[j as int] is ModeChar);
            }
            if has_mode(k0.take(j + 1)) && !(k0[j as int] is ModeChar) {
                let w = choose|w: int| 0 <= w < j + 1 && (#[trigger] k0.take(j + 1)[w]) is ModeChar;
                assert(k0.take(j as int)[w] is ModeChar);
            }
        }
        let is_mode = match &kept[j] {
            RowItem::ModeChar { .. } => true,
            RowItem::Widget { .. } => false,
        };
        if !(is_mode && found) {
            single.push(copy_row(&kept[j]));
        }
        if is_mode {
            found = true;
        }
        j = j + 1;
    }
    proof {
        assert(k0.take(k0.len() as int) =~= k0);
    }
    // Clamp mode character sizes.
    let ghost s0 = single@;
    let mut rows: Vec<RowItem> = Vec::new();
    let mut m: usize = 0;
    while m < single.len()
        invariant
            single@ == s0,
            m <= s0.len(),
            rows@ == clamp_rows(s0.take(m as int)),
        decreases s0.len() - m,
    {
        let row = match &single[m] {
            RowItem::ModeChar { size } => {
                let s: u8 = if *size < 1 {
                    1
                } else if *size > 3 {
                    3
                } else {
                    *size
                };
                RowItem::ModeChar { size: s }
            },
            RowItem::Widget { widget_type } => RowItem::Widget { widget_type: widget_type.clone() },
        };
        rows.push(row);
        proof {
            assert(rows@ =~= clamp_rows(s0.take(m + 1)));
        }
        m = m + 1;
    }
    proof {
        assert(s0.take(s0.len() as int) =~= s0);
        assert(rows@ == clamp_rows(first_mode_only(drop_none(start))));
    }
    rows
}

/// The layout with widgets removed from the end while more than five
/// logical rows are taken; the rows are summed in a `u8`.
fn trimmed_rows(rows: Vec<RowItem>) -> (r: Vec<RowItem>)
    requires
        total_rows(rows@) <= 255,
    ensures
        r@ == trim_rows(rows@),
{
    let mut rows = rows;
    proof {
        assert forall|k: int| 0 <= k < rows@.len() implies row_weight(#[trigger] rows@[k]) >= 0 by {}
    }
    let ghost c0 = rows@;
    loop
        invariant
            trim_rows(rows@) == trim_rows(c0),
            total_rows(rows@) <= 255,
            forall|k: int| 0 <= k < rows@.len() ==> row_weight(#[trigger] rows@[k]) >= 0,
        ensures
            rows@ == trim_rows(c0),
        decreases rows@.len(),
    {
        let mut total: u8 = 0;
        let mut last: Option<usize> = None;
        let mut q: usize = 0;
        while q < rows.len()
            invariant
                q <= rows@.len(),
                total_rows(rows@) <= 255,
                forall|k: int| 0 <= k < rows@.len() ==> row_weight(#[trigger] rows@[k]) >= 0,
                total == total_rows(rows@.take(q as int)),
                last matches Some(x) ==> x == last_widget(rows@.take(q as int))->0,
                last is None <==> last_widget(rows@.take(q as int)) is None,
            decreases rows@.len() - q,
        {
            proof {
                assert(rows@.take(q + 1).drop_last() =~= rows@.take(q as int));
                assert(rows@.take(q + 1).last() == rows@[q as int]);
                lemma_total_prefix(rows@, q + 1);
            }
            match &rows[q] {
                RowItem::ModeChar { size } => {
                    total = total + *size + 1;
                },
                RowItem::Widget { .. } => {
                    total = total + 1;
                    last = Some(q);
                },
            }
            q = q + 1;
        }
        proof {
            assert(rows@.take(rows@.len() as int) =~= rows@);
            lemma_last_widget_bounds(rows@);
        }
        if total <= 5 {
            break;
        }
        match last {
            Some(pos) => {
                let ghost before = rows@;
                rows.remove(pos);
                proof {
                    assert(trim_rows(before) == trim_rows(before.remove(pos as int)));
                    assert forall|k: int| 0 <= k < rows@.len() implies row_weight(
                        #[trigger] rows@[k],
                    ) >= 0 by {
                        if k < pos {
                            assert(rows@[k] == before[k]);
                        } else {
                            assert(rows@[k] == before[k + 1]);
                        }
                    }
                    lemma_total_remove_widget(before, pos as int);
                }
            },
            None => {
                break;
            },
        }
    }
    rows
}

proof fn lemma_total_remove_widget(rows: Seq<RowItem>, p: int)
    requires
        0 <= p < rows.len(),
        rows[p] is Widget,
    ensures
        total_rows(rows.remove(p)) == total_rows(rows) - 1,
    decreases rows.len(),
{
    if p == rows.len() - 1 {
        assert(rows.remove(p) =~= rows.drop_last());
    } else {
        lemma_total_remove_widget(rows.drop_last(), p);
        assert(rows.remove(p).drop_last() =~= rows.drop_last().remove(p));
        assert(rows.remove(p).last() == rows.last());
    }
}

/// Build the layout from the legacy top and bottom widget fields when it is
/// empty: the top widget, the mode character of size 2, the bottom widget,
/// each widget only when it is set and not "None". Returns whether a legacy
/// widget was migrated, in which case the settings are to be saved.
pub fn migrate_widget_rows(
    indicator_rows: &mut Vec<RowItem>,
    top_widget: &str,
    bottom_widget: &str,
) -> (save: bool)
    ensures
        old(indicator_rows)@.len() != 0 ==> !save && final(indicator_rows)@ == old(indicator_rows)@,
        old(indicator_rows)@.len() == 0 ==> ({
            let has_top = top_widget@ != "None"@ && top_widget@.len() != 0;
            let has_bottom = bottom_widget@ != "None"@ && bottom_widget@.len() != 0;
            &&& save == (has_top || has_bottom)
            &&& final(indicator_rows)@.len() == 1 + (if has_top { 1int } else { 0 }) + (if has_bottom {
                1int
            } else {
                0
            })
            &&& has_top ==> (final(indicator_rows)@[0] matches RowItem::Widget { widget_type }
                && widget_type@ == top_widget@)
            &&& final(indicator_rows)@[if has_top { 1int } else { 0 }] == (RowItem::ModeChar {
                size: 2,
            })
            &&& has_bottom ==> (final(indicator_rows)@.last() matches RowItem::Widget {
                widget_type,
            } && widget_type@ == bottom_widget@)
        }),
{
    if indicator_rows.len() != 0 {
        return false;
    }
    let has_top = !str_eq(top_widget, "None") && top_widget.unicode_len() != 0;
    let has_bottom = !str_eq(bottom_widget, "None") && bottom_widget.unicode_len() != 0;
    let mut rows: Vec<RowItem> = Vec::new();
    if has_top {
        rows.push(RowItem::Widget { widget_type: owned(top_widget) });
    }
    rows.push(RowItem::ModeChar { size: 2 });
    if has_bottom {
        rows.push(RowItem::Widget { widget_type: owned(bottom_widget) });
    }
    *indicator_rows = rows;
    has_top || has_bottom
}

/// No row is a "None" widget.
pub open spec fn no_none_widgets(rows: Seq<RowItem>) -> bool {
    forall|i: int| 0 <= i < rows.len() ==> !is_none_widget(#[trigger] rows[i])
}

/// At most one row is the mode character.
pub open spec fn mode_unique(rows: Seq<RowItem>) -> bool {
    forall|i: int, j: int|
        0 <= i < j < rows.len() && (#[trigger] rows[i]) is ModeChar ==> !((#[trigger] rows[j]) is ModeChar)
}

/// Every mode character is one to three logical rows tall.
pub open spec fn sizes_in_range(rows: Seq<RowItem>) -> bool {
    forall|i: int|
        0 <= i < rows.len() ==> ((#[trigger] rows[i]) matches RowItem::ModeChar { size } ==> 1
            <= size <= 3)
}

/// The layout takes at most five logical rows, or holds no widget that
/// could be removed.
pub open spec fn fits(rows: Seq<RowItem>) -> bool {
    total_rows(rows) <= 5 || forall|i: int| 0 <= i < rows.len() ==> !((#[trigger] rows[i]) is Widget)
}

/// Every row of `a` is a row of `b`.
pub open spec fn rows_within(a: Seq<RowItem>, b: Seq<RowItem>) -> bool {
    forall|i: int| 0 <= i < a.len() ==> b.contains(#[trigger] a[i])
}

proof fn lemma_drop_none(rows: Seq<RowItem>)
    ensures
        no_none_widgets(drop_none(rows)),
        rows_within(drop_none(rows), rows),
        no_none_widgets(rows) ==> drop_none(rows) == rows,
    decreases rows.len(),
{
    reveal_with_fuel(Seq::filter, 1);
    if rows.len() > 0 {
        let d = rows.drop_last();
        lemma_drop_none(d);
        assert(drop_none(d) == d.filter(|r: RowItem| !is_none_widget(r)));
        assert forall|i: int| 0 <= i < drop_none(rows).len() implies rows.contains(
            #[trigger] drop_none(rows)[i],
        ) by {
            if i < drop_none(d).len() {
                assert(d.contains(drop_none(d)[i]));
                let w = choose|w: int| 0 <= w < d.len() && d[w] == drop_none(d)[i];
                assert(rows[w] == d[w]);
            } else {
                assert(rows[rows.len() - 1] == rows.last());
            }
        }
        if no_none_widgets(rows) {
            assert forall|i: int| 0 <= i < d.len() implies !is_none_widget(#[trigger] d[i]) by {
                assert(d[i] == rows[i]);
            }
            assert(!is_none_widget(rows[rows.len() - 1]));
            assert(d.push(rows.last()) =~= rows);
        }
    } else {
        assert(drop_none(rows) =~= rows);
    }
}

proof fn lemma_first_mode_only(rows: Seq<RowItem>)
    ensures
        rows_within(first_mode_only(rows), rows),
        mode_unique(first_mode_only(rows)),
        mode_unique(rows) ==> first_mode_only(rows) == rows,
    decreases rows.len(),
{
    if rows.len() > 0 {
        let d = rows.drop_last();
        let p = first_mode_only(d);
        lemma_first_mode_only(d);
        assert forall|i: int| 0 <= i < p.len() implies rows.contains(#[trigger] p[i]) by {
            assert(d.contains(p[i]));
            let w = choose|w: int| 0 <= w < d.len() && d[w] == p[i];
            assert(rows[w] == d[w]);
        }
        if !(rows.last() is ModeChar && has_mode(d)) {
            let r = p.push(rows.last());
            assert(r[r.len() - 1] == rows.last());
            assert(rows[rows.len() - 1] == rows.last());
            assert forall|i: int| 0 <= i < r.len() implies rows.contains(#[trigger] r[i]) by {
                if i < p.len() {
                    assert(r[i] == p[i]);
                }
            }
            assert forall|i: int, j: int|
                0 <= i < j < r.len() && (#[trigger] r[i]) is ModeChar implies !((#[trigger] r[j]) is ModeChar) by {
                if j == r.len() - 1 && r[j] is ModeChar {
                    assert(r[i] == p[i]);
                    assert(d.contains(p[i]));
                    let w = choose|w: int| 0 <= w < d.len() && d[w] == p[i];
                    assert(d[w] is ModeChar);
                } else if j < r.len() - 1 {
                    assert(r[i] == p[i]);
                    assert(r[j] == p[j]);
                }
            }
        }
        if mode_unique(rows) {
            assert forall|i: int, j: int|
                0 <= i < j < d.len() && (#[trigger] d[i]) is ModeChar implies !((#[trigger] d[j]) is ModeChar) by {
                assert(d[i] == rows[i]);
                assert(d[j] == rows[j]);
            }
            if rows.last() is ModeChar && has_mode(d) {
                let w = choose|w: int| 0 <= w < d.len() && (#[trigger] d[w]) is ModeChar;
                assert(rows[w] == d[w]);
                assert(rows[rows.len() - 1] is ModeChar);
            }
            assert(d.push(rows.last()) =~= rows);
        }
    }
}

proof fn lemma_clamp_rows(rows: Seq<RowItem>)
    ensures
        sizes_in_range(clamp_rows(rows)),
        no_none_widgets(rows) ==> no_none_widgets(clamp_rows(rows)),
        mode_unique(rows) ==> mode_unique(clamp_rows(rows)),
        sizes_in_range(rows) ==> clamp_rows(rows) == rows,
{
    let c = clamp_rows(rows);
    assert forall|i: int| 0 <= i < c.len() implies #[trigger] c[i] == clamp_row(rows[i]) by {}
    if mode_unique(rows) {
        assert forall|i: int, j: int|
            0 <= i < j < c.len() && (#[trigger] c[i]) is ModeChar implies !((#[trigger] c[j]) is ModeChar) by {
            assert(c[i] == clamp_row(rows[i]));
            assert(c[j] == clamp_row(rows[j]));
        }
    }
    if sizes_in_range(rows) {
        assert forall|i: int| 0 <= i < c.len() implies #[trigger] c[i] == rows[i] by {
            assert(c[i] == clamp_row(rows[i]));
        }
        assert(c =~= rows);
    }
}

proof fn lemma_remove_keeps(rows: Seq<RowItem>, p: int)
    requires
        0 <= p < rows.len(),
    ensures
        rows_within(rows.remove(p), rows),
        mode_unique(rows) ==> mode_unique(rows.remove(p)),
{
    let r = rows.remove(p);
    assert forall|i: int| 0 <= i < r.len() implies rows.contains(#[trigger] r[i]) by {
        if i < p {
            assert(r[i] == rows[i]);
        } else {
            assert(r[i] == rows[i + 1]);
        }
    }
    if mode_unique(rows) {
        assert forall|i: int, j: int|
            0 <= i < j < r.len() && (#[trigger] r[i]) is ModeChar implies !((#[trigger] r[j]) is ModeChar) by {
            let oi = if i < p { i } else { i + 1 };
            let oj = if j < p { j } else { j + 1 };
            assert(r[i] == rows[oi]);
            assert(r[j] == rows[oj]);
        }
    }
}

proof fn lemma_trim_rows(rows: Seq<RowItem>)
    ensures
        rows_within(trim_rows(rows), rows),
        fits(trim_rows(rows)),
        mode_unique(rows) ==> mode_unique(trim_rows(rows)),
        fits(rows) ==> trim_rows(rows) == rows,
    decreases rows.len(),
{
    lemma_last_widget_bounds(rows);
    if total_rows(rows) <= 5 {
        assert forall|i: int| 0 <= i < rows.len() implies rows.contains(#[trigger] rows[i]) by {}
    } else {
        match last_widget(rows) {
            Some(p) => {
                let r = rows.remove(p);
                lemma_trim_rows(r);
                lemma_remove_keeps(rows, p);
                let t = trim_rows(r);
                assert forall|i: int| 0 <= i < t.len() implies rows.contains(#[trigger] t[i]) by {
                    assert(r.contains(t[i]));
                    let w = choose|w: int| 0 <= w < r.len() && r[w] == t[i];
                    assert(rows.contains(r[w]));
                }
                if fits(rows) {
                    assert(rows[p] is Widget);
                }
            },
            None => {
                assert forall|i: int| 0 <= i < rows.len() implies rows.contains(#[trigger] rows[i]) by {}
            },
        }
    }
}

proof fn lemma_within_keeps(a: Seq<RowItem>, b: Seq<RowItem>)
    requires
        rows_within(a, b),
    ensures
        no_none_widgets(b) ==> no_none_widgets(a),
        sizes_in_range(b) ==> sizes_in_range(a),
{
    assert forall|i: int| 0 <= i < a.len() implies exists|w: int| 0 <= w < b.len() && b[w] == #[trigger] a[i] by {
        assert(b.contains(a[i]));
    }
}

/// The repaired layout holds no "None" widget, at most one mode character,
/// only mode characters one to three rows tall, and at most five logical
/// rows unless no widget is left to remove.
pub proof fn lemma_sanitized_valid(rows: Seq<RowItem>)
    ensures
        no_none_widgets(sanitized(rows)),
        mode_unique(sanitized(rows)),
        sizes_in_range(sanitized(rows)),
        fits(sanitized(rows)),
{
    let a = drop_none(rows);
    let b = first_mode_only(a);
    let c = clamp_rows(b);
    let t = trim_rows(c);
    lemma_drop_none(rows);
    lemma_first_mode_only(a);
    lemma_within_keeps(b, a);
    lemma_clamp_rows(b);
    lemma_trim_rows(c);
    lemma_within_keeps(t, c);
}

/// Repairing a repaired layout changes nothing.
pub proof fn lemma_sanitize_rows_idempotent(rows: Seq<RowItem>)
    ensures
        sanitized(sanitized(rows)) == sanitized(rows),
{
    let t = sanitized(rows);
    lemma_sanitized_valid(rows);
    lemma_drop_none(t);
    lemma_first_mode_only(t);
    lemma_clamp_rows(t);
    lemma_trim_rows(t);
}

} // verus!
