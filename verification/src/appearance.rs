//! How a key looks: its caption, its colours, and the size of a layer's rows.

use vstd::prelude::*;

use crate::layout::{Key, KeyAction, KeyView, Layer, Mod};

verus! {

/// Whether two strings hold the same characters.
pub fn str_eq(a: &str, b: &str) -> (r: bool)
    ensures
        r == (a@ == b@),
{
    let x: String = a.to_owned();
    let y: String = b.to_owned();
    x == y
}

/// The caption shown for a key label: a few symbols are spelled out.
pub open spec fn spec_normalize_key_label(label: Seq<char>) -> Seq<char> {
    if label == "⌫"@ {
        "Backspace"@
    } else if label == "⇧"@ {
        "Shift"@
    } else if label == "⎋"@ {
        "Esc"@
    } else if label == "⌨"@ {
        "Hide"@
    } else if label == "ABC"@ {
        "Letters"@
    } else if label == "?123"@ {
        "Symbols"@
    } else if label == "😊"@ {
        "Emoji"@
    } else if label == "…"@ {
        "..."@
    } else {
        label
    }
}

pub fn normalize_key_label(label: &str) -> (r: String)
    ensures
        r@ == spec_normalize_key_label(label@),
{
    if str_eq(label, "⌫") {
        "Backspace".to_owned()
    } else if str_eq(label, "⇧") {
        "Shift".to_owned()
    } else if str_eq(label, "⎋") {
        "Esc".to_owned()
    } else if str_eq(label, "⌨") {
        "Hide".to_owned()
    } else if str_eq(label, "ABC") {
        "Letters".to_owned()
    } else if str_eq(label, "?123") {
        "Symbols".to_owned()
    } else if str_eq(label, "😊") {
        "Emoji".to_owned()
    } else if str_eq(label, "…") {
        "...".to_owned()
    } else {
        label.to_owned()
    }
}

/// Fill and border colours (ARGB) of a key.
pub open spec fn spec_key_palette(action: KeyAction, active: bool, flashing: bool) -> (u32, u32) {
    if flashing {
        (0xFFD89A4C, 0xFFF1C88F)
    } else {
        match action {
            KeyAction::Hide => (0xFF8C2020, 0xFFB64545),
            KeyAction::Layer(_) => if active {
                (0xFFCC8A2D, 0xFFE9B66C)
            } else {
                (0xFF2B2B2B, 0xFF4A4A4A)
            },
            KeyAction::Modifier(_) => if active {
                (0xFFCC8A2D, 0xFFE9B66C)
            } else {
                (0xFF303030, 0xFF525252)
            },
            KeyAction::Code(_) => (0xFF242424, 0xFF4A4A4A),
            KeyAction::ShiftedCode(_) => (0xFF242424, 0xFF4A4A4A),
        }
    }
}

pub fn key_palette(action: &KeyAction, active: bool, flashing: bool) -> (r: (u32, u32))
    ensures
        r == spec_key_palette(*action, active, flashing),
{
    if flashing {
        // brief tap feedback
        return (0xFFD89A4C, 0xFFF1C88F);
    }
    match action {
        KeyAction::Hide => (0xFF8C2020, 0xFFB64545),
        KeyAction::Layer(_) if active => (0xFFCC8A2D, 0xFFE9B66C),
        KeyAction::Layer(_) => (0xFF2B2B2B, 0xFF4A4A4A),
        KeyAction::Modifier(_) if active => (0xFFCC8A2D, 0xFFE9B66C),
        KeyAction::Modifier(_) => (0xFF303030, 0xFF525252),
        KeyAction::Code(_) | KeyAction::ShiftedCode(_) => (0xFF242424, 0xFF4A4A4A),
    }
}

pub fn key_action_eq(a: &KeyAction, b: &KeyAction) -> (r: bool)
    ensures
        r == (*a == *b),
{
    match (a, b) {
        (KeyAction::Code(x), KeyAction::Code(y)) => x == y,
        (KeyAction::ShiftedCode(x), KeyAction::ShiftedCode(y)) => x == y,
        (KeyAction::Layer(x), KeyAction::Layer(y)) => x == y,
        (KeyAction::Modifier(x), KeyAction::Modifier(y)) => x == y,
        (KeyAction::Hide, KeyAction::Hide) => true,
        _ => false,
    }
}

/// Some entry of the snapshot has this action and this label.
pub open spec fn spec_flashing_in(snapshot: Seq<(KeyAction, String)>, action: KeyAction, label: Seq<char>) -> bool {
    exists|i: int| 0 <= i < snapshot.len() && #[trigger] snapshot[i].0 == action && snapshot[i].1@ == label
}

pub fn is_flashing_in(snapshot: &[(KeyAction, String)], action: &KeyAction, label: &str) -> (r: bool)
    ensures
        r == spec_flashing_in(snapshot@, *action, label@),
{
    let mut i: usize = 0;
    while i < snapshot.len()
        invariant
            i <= snapshot@.len(),
            forall|j: int| 0 <= j < i ==> !(#[trigger] snapshot@[j].0 == *action && snapshot@[j].1@ == label@),
        decreases snapshot@.len() - i,
    {
        let (a, l) = &snapshot[i];
        if key_action_eq(a, action) && str_eq(l.as_str(), label) {
            assert(snapshot@[i as int].0 == *action);
            return true;
        }
        i = i + 1;
    }
    false
}

/// The width of a row in quarter units.
pub open spec fn spec_row_units(row: Seq<KeyView>) -> nat
    decreases row.len(),
{
    if row.len() == 0 {
        0
    } else {
        spec_row_units(row.drop_last()) + row.last().width_quarters
    }
}

pub fn row_units(row: &Vec<Key>) -> (r: u32)
    requires
        spec_row_units(row.deep_view()) <= u32::MAX,
    ensures
        r == spec_row_units(row.deep_view()),
{
    let ghost v = row.deep_view();
    let mut sum: u32 = 0;
    let mut i: usize = 0;
    while i < row.len()
        invariant
            v == row.deep_view(),
            spec_row_units(v) <= u32::MAX,
            i <= v.len(),
            sum == spec_row_units(v.take(i as int)),
        decreases v.len() - i,
    {
        proof {
            assert(v.take(i + 1).drop_last() =~= v.take(i as int));
            lemma_row_units_prefix(v, i + 1);
        }
        sum = sum + row[i].width_quarters;
        i = i + 1;
    }
    assert(v.take(i as int) =~= v);
    sum
}

/// Whether the width of a row fits in 32 bits, as `row_units` and
/// `layout_extent` require.
pub fn row_units_fit(row: &Vec<Key>) -> (r: bool)
    ensures
        r == (spec_row_units(row.deep_view()) <= u32::MAX),
{
    let ghost v = row.deep_view();
    let mut sum: u64 = 0;
    let mut i: usize = 0;
    while i < row.len()
        invariant
            v == row.deep_view(),
            i <= v.len(),
            sum == spec_row_units(v.take(i as int)),
            sum <= u32::MAX,
        decreases v.len() - i,
    {
        proof {
            assert(v.take(i + 1).drop_last() =~= v.take(i as int));
            assert(row@[i as int].deep_view() == v[i as int]);
        }
        sum = sum + row[i].width_quarters as u64;
        if sum > 0xffff_ffff {
            proof {
                lemma_row_units_prefix(v, i + 1);
            }
            return false;
        }
        i = i + 1;
    }
    assert(v.take(i as int) =~= v);
    true
}

/// A prefix of a row is no wider than the row.
pub proof fn lemma_row_units_prefix(row: Seq<KeyView>, n: int)
    requires
        0 <= n <= row.len(),
    ensures
        spec_row_units(row.take(n)) <= spec_row_units(row),
    decreases row.len() - n,
{
    if n < row.len() {
        lemma_row_units_prefix(row, n + 1);
        assert(row.take(n + 1).drop_last() =~= row.take(n));
    } else {
        assert(row.take(n) =~= row);
    }
}

/// The widest row, in quarter units, and never less than 40 (ten keys).
pub open spec fn spec_max_units(rows: Seq<Seq<KeyView>>) -> nat
    decreases rows.len(),
{
    if rows.len() == 0 {
        40
    } else {
        let rest = spec_max_units(rows.drop_last());
        let last = spec_row_units(rows.last());
        if last > rest { last } else { rest }
    }
}

/// The largest number of keys in a row, or 10 when there are no rows.
pub open spec fn spec_max_count(rows: Seq<Seq<KeyView>>) -> nat
    decreases rows.len(),
{
    if rows.len() == 0 {
        10
    } else if rows.len() == 1 {
        rows[0].len()
    } else {
        let rest = spec_max_count(rows.drop_last());
        if rows.last().len() > rest { rows.last().len() } else { rest }
    }
}

/// The extent of a layer for sizing its keys: the widest row in quarter units
/// (at least ten keys' worth) and the largest number of keys in a row.
pub fn layout_extent(rows: &Vec<Vec<Key>>) -> (r: (u32, usize))
    requires
        forall|i: int| 0 <= i < rows.deep_view().len() ==> spec_row_units(#[trigger] rows.deep_view()[i]) <= u32::MAX,
    ensures
        r.0 == spec_max_units(rows.deep_view()),
        r.1 == spec_max_count(rows.deep_view()),
{
    let ghost v = rows.deep_view();
    let mut max_units: u32 = 40;
    let mut max_count: usize = 10;
    let mut i: usize = 0;
    while i < rows.len()
        invariant
            v == rows.deep_view(),
            forall|j: int| 0 <= j < v.len() ==> spec_row_units(#[trigger] v[j]) <= u32::MAX,
            i <= v.len(),
            max_units == spec_max_units(v.take(i as int)),
            max_count == spec_max_count(v.take(i as int)),
        decreases v.len() - i,
    {
        assert(v.take(i + 1).drop_last() =~= v.take(i as int));
        assert(v.take(i + 1).last() == v[i as int]);
        assert(rows@[i as int].deep_view() == v[i as int]);
        let units = row_units(&rows[i]);
        if units > max_units {
            max_units = units;
        }
        let count = rows[i].len();
        if i == 0 || count > max_count {
            max_count = count;
        }
        i = i + 1;
    }
    assert(v.take(i as int) =~= v);
    (max_units, max_count)
}


/// A row's width is the sum of its keys' widths: one key is as wide as it
/// is, and two rows side by side are as wide as both together.
pub proof fn lemma_row_units_additive(a: Seq<KeyView>, b: Seq<KeyView>)
    ensures
        spec_row_units(a + b) == spec_row_units(a) + spec_row_units(b),
        a.len() == 1 ==> spec_row_units(a) == a[0].width_quarters,
        spec_row_units(Seq::<KeyView>::empty()) == 0,
    decreases b.len(),
{
    if a.len() == 1 {
        assert(a.drop_last() =~= Seq::<KeyView>::empty());
        assert(spec_row_units(a.drop_last()) == 0);
        assert(a.last() == a[0]);
    }
    if b.len() == 0 {
        assert(a + b =~= a);
    } else {
        lemma_row_units_additive(a, b.drop_last());
        assert((a + b).drop_last() =~= a + b.drop_last());
        assert((a + b).last() == b.last());
    }
}

/// The widest-row figure is at least every row's width and at least ten
/// keys' worth (40), and it is one of those: 40 or some row's width. The key
/// count is at least every row's length, and it is some row's length, or 10
/// when there are no rows.
pub proof fn lemma_layout_extent_bounds(rows: Seq<Seq<KeyView>>)
    ensures
        spec_max_units(rows) >= 40,
        forall|i: int| 0 <= i < rows.len() ==> spec_row_units(#[trigger] rows[i]) <= spec_max_units(rows),
        spec_max_units(rows) == 40 || exists|i: int| 0 <= i < rows.len() && spec_row_units(#[trigger] rows[i]) == spec_max_units(rows),
        forall|i: int| 0 <= i < rows.len() ==> (#[trigger] rows[i]).len() <= spec_max_count(rows),
        rows.len() == 0 ==> spec_max_count(rows) == 10,
        rows.len() > 0 ==> exists|i: int| 0 <= i < rows.len() && (#[trigger] rows[i]).len() == spec_max_count(rows),
    decreases rows.len(),
{
    if rows.len() > 0 {
        let rest = rows.drop_last();
        lemma_layout_extent_bounds(rest);
        assert forall|i: int| 0 <= i < rows.len() implies spec_row_units(#[trigger] rows[i]) <= spec_max_units(rows) by {
            if i < rows.len() - 1 {
                assert(rows[i] == rest[i]);
            }
        }
        if spec_max_units(rows) != 40 {
            if spec_row_units(rows.last()) > spec_max_units(rest) {
                assert(spec_row_units(rows[rows.len() - 1]) == spec_max_units(rows));
            } else {
                let k = choose|k: int| 0 <= k < rest.len() && spec_row_units(#[trigger] rest[k]) == spec_max_units(rest);
                assert(rows[k] == rest[k]);
            }
        }
        assert forall|i: int| 0 <= i < rows.len() implies (#[trigger] rows[i]).len() <= spec_max_count(rows) by {
            if i < rows.len() - 1 {
                assert(rows[i] == rest[i]);
            }
        }
        if rows.len() == 1 {
            assert(rows[0].len() == spec_max_count(rows));
        } else if rows.last().len() > spec_max_count(rest) {
            assert(rows[rows.len() - 1].len() == spec_max_count(rows));
        } else {
            let k = choose|k: int| 0 <= k < rest.len() && (#[trigger] rest[k]).len() == spec_max_count(rest);
            assert(rows[k] == rest[k]);
        }
    }
}

/// Colours follow what a key is: a flashing key is always drawn in the tap
/// colours, whatever it does; a lit modifier key and a lit layer key look the
/// same; unlit, every code key looks the same whatever its code, and Shift
/// added or not.
pub proof fn lemma_palette_rules(action: KeyAction, active: bool, m: Mod, l: Layer, c1: u32, c2: u32)
    ensures
        spec_key_palette(action, active, true) == spec_key_palette(KeyAction::Code(c1), false, true),
        spec_key_palette(KeyAction::Modifier(m), true, false) == spec_key_palette(KeyAction::Layer(l), true, false),
        spec_key_palette(KeyAction::Modifier(m), true, false) != spec_key_palette(KeyAction::Modifier(m), false, false),
        spec_key_palette(KeyAction::Layer(l), true, false) != spec_key_palette(KeyAction::Layer(l), false, false),
        spec_key_palette(KeyAction::Code(c1), active, false) == spec_key_palette(KeyAction::ShiftedCode(c2), false, false),
        spec_key_palette(KeyAction::Code(c1), false, false) != spec_key_palette(KeyAction::Code(c1), false, true),
{
}

} // verus!
