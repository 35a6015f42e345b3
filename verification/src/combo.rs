//! Drop-down lists whose entries pair a shown label with the value written to the config file.
use vstd::prelude::*;

use crate::text::same_text;

verus! {

/// What a drop-down shows: its entries' labels, and which entry is selected, if any.
pub struct Combo {
    pub items: Vec<&'static str>,
    pub selected: Option<usize>,
}

/// `found` is the index of the first entry of `options` whose config value is `current`, or
/// `None` when no entry has that value.
pub open spec fn is_first_index_of(
    options: Seq<(&str, &str)>,
    current: Seq<char>,
    found: Option<usize>,
) -> bool {
    match found {
        Some(i) => {
            &&& i < options.len()
            &&& options[i as int].1@ == current
            &&& forall|j: int| 0 <= j < i ==> (#[trigger] options[j]).1@ != current
        },
        None => forall|j: int| 0 <= j < options.len() ==> (#[trigger] options[j]).1@ != current,
    }
}

/// The index of the first entry of `options` whose config value is `current`.
pub fn index_of(options: &[(&str, &str)], current: &str) -> (found: Option<usize>)
    ensures
        is_first_index_of(options@, current@, found),
{
    let mut i: usize = 0;
    while i < options.len()
        invariant
            i <= options@.len(),
            forall|j: int| 0 <= j < i ==> (#[trigger] options@[j]).1@ != current@,
        decreases options@.len() - i,
    {
        if same_text(options[i].1, current) {
            return Some(i);
        }
        i = i + 1;
    }
    None
}

/// The labels of `options`, in order.
pub fn labels(options: &[(&'static str, &'static str)]) -> (items: Vec<&'static str>)
    ensures
        items@.len() == options@.len(),
        forall|i: int| 0 <= i < options@.len() ==> items@[i] == (#[trigger] options@[i]).0,
{
    let mut items: Vec<&'static str> = Vec::new();
    let mut i: usize = 0;
    while i < options.len()
        invariant
            i <= options@.len(),
            items@.len() == i,
            forall|j: int| 0 <= j < i ==> items@[j] == (#[trigger] options@[j]).0,
        decreases options@.len() - i,
    {
        items.push(options[i].0);
        i = i + 1;
    }
    items
}

/// The drop-down for a setting whose config value is `current`: it lists the labels of
/// `options` and selects the first entry whose config value is `current`.
pub fn string_combo(options: &[(&'static str, &'static str)], current: &str) -> (combo: Combo)
    ensures
        combo.items@.len() == options@.len(),
        forall|i: int| 0 <= i < options@.len() ==> combo.items@[i] == (#[trigger] options@[i]).0,
        is_first_index_of(options@, current@, combo.selected),
{
    Combo { items: labels(options), selected: index_of(options, current) }
}

/// No two entries of `options` share a config value.
pub open spec fn values_distinct(options: Seq<(&str, &str)>) -> bool {
    forall|i: int, j: int|
        0 <= i < options.len() && 0 <= j < options.len() && i != j ==> (#[trigger] options[i]).1@
            != (#[trigger] options[j]).1@
}

/// Where the config values are distinct, the entry found for an entry's own value is that
/// entry: what the drop-down selects for a stored value is the entry that writes it.
pub proof fn lemma_index_of_own_value(options: Seq<(&str, &str)>, i: int, found: Option<usize>)
    requires
        values_distinct(options),
        0 <= i < options.len(),
        is_first_index_of(options, options[i].1@, found),
    ensures
        found == Some(i as usize),
{
    match found {
        Some(k) => {
            if (k as int) < i {
                assert(options[k as int].1@ == options[i].1@);
            } else if (k as int) > i {
                assert(options[i].1@ == options[i].1@);
            }
        },
        None => {
            assert(options[i].1@ == options[i].1@);
        },
    }
}

} // verus!
