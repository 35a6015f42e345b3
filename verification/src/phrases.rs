//! The custom-phrase page: pins a text to a candidate slot for an exact input code. An input
//! code is the raw letters typed and matches as a whole.
use vstd::prelude::*;

use crate::combo::Combo;
use crate::text::{decimal, digits_value, lemma_decimal_injective, lemma_decimal_value, push_decimal};

verus! {

/// How many candidate slots the position drop-down offers.
pub const POSITION_COUNT: usize = 9;

/// The entries of the position drop-down, slots 1 to 9.
pub const POSITIONS: [&'static str; 9] = [
    "第 1 位",
    "第 2 位",
    "第 3 位",
    "第 4 位",
    "第 5 位",
    "第 6 位",
    "第 7 位",
    "第 8 位",
    "第 9 位",
];

/// A custom phrase: `text` shows at candidate slot `position` (1-based) when `code` is typed.
pub struct CustomPhrase {
    pub code: String,
    pub text: String,
    pub position: usize,
    pub enabled: bool,
}

/// The shown name of candidate slot `position`.
pub open spec fn position_name(position: nat) -> Seq<char> {
    "第 "@ + decimal(position) + " 位"@
}

/// Drop-down row for a 1-based candidate slot: slot 0 and slot 1 both land on the first row,
/// slots past the last row land on the last row.
pub open spec fn spec_position_index(current: int) -> int {
    if current <= 1 {
        0
    } else if current - 1 >= POSITION_COUNT - 1 {
        POSITION_COUNT - 1
    } else {
        current - 1
    }
}

/// The drop-down row selected for the stored 1-based slot `current`.
pub fn position_index(current: usize) -> (index: usize)
    ensures
        index == spec_position_index(current as int),
        index < POSITION_COUNT,
{
    let below = current.saturating_sub(1);
    if below < POSITION_COUNT - 1 {
        below
    } else {
        POSITION_COUNT - 1
    }
}

/// The position drop-down for the stored slot `current`.
pub fn position_combo(current: usize) -> (combo: Combo)
    ensures
        combo.items@ == POSITIONS@,
        combo.selected == Some(spec_position_index(current as int) as usize),
{
    let positions = POSITIONS;
    let mut items: Vec<&'static str> = Vec::new();
    let mut i: usize = 0;
    while i < POSITION_COUNT
        invariant
            i <= POSITION_COUNT,
            positions@ == POSITIONS@,
            items@ == positions@.take(i as int),
        decreases POSITION_COUNT - i,
    {
        items.push(positions[i]);
        i = i + 1;
        assert(items@ =~= positions@.take(i as int));
    }
    assert(positions@.take(POSITION_COUNT as int) =~= positions@);
    Combo { items, selected: Some(position_index(current)) }
}

/// The one-line preview of a rule: `code → preview（第 position 位）`.
pub open spec fn label_text(code: Seq<char>, preview: Seq<char>, position: nat) -> Seq<char> {
    code + " → "@ + preview + "（第 "@ + decimal(position) + " 位）"@
}

/// The one-line preview of `phrase`, where `preview` is its text as shortened for display.
pub fn label(phrase: &CustomPhrase, preview: &str) -> (line: String)
    ensures
        line@ == label_text(phrase.code@, preview@, phrase.position as nat),
{
    let mut line = phrase.code.clone();
    line.append(" → ");
    line.append(preview);
    line.append("（第 ");
    push_decimal(&mut line, phrase.position);
    line.append(" 位）");
    line
}

/// The stable key of a rule in the list: input code and slot.
pub open spec fn phrase_key_text(code: Seq<char>, position: nat) -> Seq<char> {
    code + "@"@ + decimal(position)
}

/// The stable key of `phrase` in the rule list: `code@position`.
pub fn phrase_key(phrase: &CustomPhrase) -> (key: String)
    ensures
        key@ == phrase_key_text(phrase.code@, phrase.position as nat),
{
    let mut key = phrase.code.clone();
    key.append("@");
    push_decimal(&mut key, phrase.position);
    key
}

/// One row of the rule list.
pub struct RuleRow {
    /// Index of the rule: what the check box and the remove button report.
    pub index: usize,
    /// Whether the check box is ticked.
    pub checked: bool,
    /// The check box's text.
    pub label: String,
    /// The row's stable key.
    pub key: String,
}

/// The row for rule `index`, `phrase`, whose text previews as `preview`.
pub fn rule_row(index: usize, phrase: &CustomPhrase, preview: &str) -> (row: RuleRow)
    ensures
        row.index == index,
        row.checked == phrase.enabled,
        row.label@ == label_text(phrase.code@, preview@, phrase.position as nat),
        row.key@ == phrase_key_text(phrase.code@, phrase.position as nat),
{
    RuleRow {
        index,
        checked: phrase.enabled,
        label: label(phrase, preview),
        key: phrase_key(phrase),
    }
}

/// What the custom-phrase page shows.
pub struct PhrasesView {
    /// No rule yet: the page shows a note in place of the list.
    pub empty_note: bool,
    /// One row per rule, in order.
    pub rows: Vec<RuleRow>,
    /// The error of the last add, shown beside the add button when there is one.
    pub error: Option<String>,
    /// The input-code box of the rule being added.
    pub code: String,
    /// The text box of the rule being added.
    pub text: String,
    /// The position drop-down of the rule being added.
    pub position: Combo,
}

/// No two rules share both input code and slot (what validation of the rules ensures).
pub open spec fn rules_distinct(phrases: Seq<CustomPhrase>) -> bool {
    forall|i: int, j: int|
        0 <= i < phrases.len() && 0 <= j < phrases.len() && i != j ==> !((#[trigger] phrases[i]).code@
            == (#[trigger] phrases[j]).code@ && phrases[i].position == phrases[j].position)
}

/// No input code holds an `@` (validated codes are lowercase letters).
pub open spec fn codes_without_at(phrases: Seq<CustomPhrase>) -> bool {
    forall|i: int| 0 <= i < phrases.len() ==> !(#[trigger] phrases[i]).code@.contains('@')
}

/// The custom-phrase page for the rules `phrases`, whose texts preview as `previews`, the
/// error `phrase_error` of the last add (empty when none), and the input code `phrase_code`,
/// text `phrase_text` and slot `phrase_position` of the rule being added. Where the rules are
/// validated, every row has its own key.
pub fn view(
    phrases: &[CustomPhrase],
    previews: &[String],
    phrase_error: &str,
    phrase_code: &str,
    phrase_text: &str,
    phrase_position: usize,
) -> (page: PhrasesView)
    requires
        previews@.len() == phrases@.len(),
    ensures
        page.empty_note == (phrases@.len() == 0),
        page.rows@.len() == phrases@.len(),
        forall|i: int|
            0 <= i < phrases@.len() ==> {
                let row = #[trigger] page.rows@[i];
                let phrase = phrases@[i];
                &&& row.index == i
                &&& row.checked == phrase.enabled
                &&& row.label@ == label_text(phrase.code@, previews@[i]@, phrase.position as nat)
                &&& row.key@ == phrase_key_text(phrase.code@, phrase.position as nat)
            },
        match page.error {
            Some(e) => phrase_error@.len() > 0 && e@ == phrase_error@,
            None => phrase_error@.len() == 0,
        },
        rules_distinct(phrases@) && codes_without_at(phrases@) ==> forall|i: int, j: int|
            0 <= i < phrases@.len() && 0 <= j < phrases@.len() && i != j ==> (#[trigger] page.rows@[i]).key@
                != (#[trigger] page.rows@[j]).key@,
        page.code@ == phrase_code@,
        page.text@ == phrase_text@,
        page.position.items@ == POSITIONS@,
        page.position.selected == Some(spec_position_index(phrase_position as int) as usize),
{
    let mut rows: Vec<RuleRow> = Vec::new();
    let mut i: usize = 0;
    while i < phrases.len()
        invariant
            i <= phrases@.len(),
            previews@.len() == phrases@.len(),
            rows@.len() == i,
            forall|j: int|
                0 <= j < i ==> {
                    let row = #[trigger] rows@[j];
                    let phrase = phrases@[j];
                    &&& row.index == j
                    &&& row.checked == phrase.enabled
                    &&& row.label@ == label_text(
                        phrase.code@,
                        previews@[j]@,
                        phrase.position as nat,
                    )
                    &&& row.key@ == phrase_key_text(phrase.code@, phrase.position as nat)
                },
        decreases phrases@.len() - i,
    {
        rows.push(rule_row(i, &phrases[i], previews[i].as_str()));
        i = i + 1;
    }
    let error = if phrase_error.is_empty() {
        None
    } else {
        Some(phrase_error.to_owned())
    };
    proof {
        if rules_distinct(phrases@) && codes_without_at(phrases@) {
            assert forall|i: int, j: int|
                0 <= i < phrases@.len() && 0 <= j < phrases@.len() && i != j implies (
            #[trigger] rows@[i]).key@ != (#[trigger] rows@[j]).key@ by {
                let a = phrases@[i];
                let b = phrases@[j];
                lemma_phrase_key_distinct(a.code@, a.position as nat, b.code@, b.position as nat);
            }
        }
    }
    PhrasesView {
        empty_note: phrases.len() == 0,
        rows,
        error,
        code: phrase_code.to_owned(),
        text: phrase_text.to_owned(),
        position: position_combo(phrase_position),
    }
}

/// Row `i` of the position drop-down names slot `i + 1`.
pub proof fn lemma_position_names()
    ensures
        POSITIONS@.len() == POSITION_COUNT,
        forall|i: int| 0 <= i < POSITION_COUNT ==> (#[trigger] POSITIONS@[i])@ == position_name(
            (i + 1) as nat,
        ),
{
    reveal_strlit("第 ");
    reveal_strlit(" 位");
    reveal_strlit("第 1 位");
    reveal_strlit("第 2 位");
    reveal_strlit("第 3 位");
    reveal_strlit("第 4 位");
    reveal_strlit("第 5 位");
    reveal_strlit("第 6 位");
    reveal_strlit("第 7 位");
    reveal_strlit("第 8 位");
    reveal_strlit("第 9 位");
    assert forall|i: int| 0 <= i < POSITION_COUNT implies (#[trigger] POSITIONS@[i])@
        == position_name((i + 1) as nat) by {
        assert(decimal((i + 1) as nat) =~= seq![crate::text::digit_char((i + 1) as nat)]);
        assert(position_name((i + 1) as nat) =~= "第 "@ + decimal((i + 1) as nat) + " 位"@);
        if i == 0 {
            assert(POSITIONS@[0]@ =~= position_name(1));
        } else if i == 1 {
            assert(POSITIONS@[1]@ =~= position_name(2));
        } else if i == 2 {
            assert(POSITIONS@[2]@ =~= position_name(3));
        } else if i == 3 {
            assert(POSITIONS@[3]@ =~= position_name(4));
        } else if i == 4 {
            assert(POSITIONS@[4]@ =~= position_name(5));
        } else if i == 5 {
            assert(POSITIONS@[5]@ =~= position_name(6));
        } else if i == 6 {
            assert(POSITIONS@[6]@ =~= position_name(7));
        } else if i == 7 {
            assert(POSITIONS@[7]@ =~= position_name(8));
        } else {
            assert(POSITIONS@[8]@ =~= position_name(9));
        }
    }
}

/// For a stored slot from 1 to 9 the drop-down selects the row that names that slot; any
/// other stored slot selects the first or the last row.
pub proof fn lemma_position_combo_shows_slot(current: int)
    ensures
        1 <= current <= POSITION_COUNT ==> POSITIONS@[spec_position_index(current)]@
            == position_name(current as nat),
        current < 1 ==> spec_position_index(current) == 0,
        current > POSITION_COUNT ==> spec_position_index(current) == POSITION_COUNT - 1,
{
    lemma_position_names();
    if 1 <= current <= POSITION_COUNT {
        assert(POSITIONS@[current - 1]@ == position_name(current as nat));
    }
}

/// Rules whose input codes hold no `@` get the same list key exactly when they share input
/// code and slot; as the input codes are letters, distinct rules have distinct keys.
pub proof fn lemma_phrase_key_distinct(
    code_a: Seq<char>,
    position_a: nat,
    code_b: Seq<char>,
    position_b: nat,
)
    requires
        !code_a.contains('@'),
        !code_b.contains('@'),
    ensures
        phrase_key_text(code_a, position_a) == phrase_key_text(code_b, position_b) <==> (code_a
            == code_b && position_a == position_b),
{
    reveal_strlit("@");
    let ka = phrase_key_text(code_a, position_a);
    let kb = phrase_key_text(code_b, position_b);
    if ka == kb {
        if code_a.len() < code_b.len() {
            assert(ka[code_a.len() as int] == '@');
            assert(kb[code_a.len() as int] == code_b[code_a.len() as int]);
            assert(code_b.contains(code_b[code_a.len() as int]));
        } else if code_b.len() < code_a.len() {
            assert(kb[code_b.len() as int] == '@');
            assert(ka[code_b.len() as int] == code_a[code_b.len() as int]);
            assert(code_a.contains(code_a[code_b.len() as int]));
        }
        assert(code_a.len() == code_b.len());
        assert(code_a =~= ka.subrange(0, code_a.len() as int));
        assert(code_b =~= kb.subrange(0, code_b.len() as int));
        assert(decimal(position_a) =~= ka.skip(code_a.len() as int + 1));
        assert(decimal(position_b) =~= kb.skip(code_b.len() as int + 1));
        lemma_decimal_injective(position_a, position_b);
    }
}

/// A rule's label is its input code, ` → `, the whole preview it was given, `（第 `, the slot
/// in decimal and ` 位）`, in that order and nothing else.
pub proof fn lemma_label_parts(code: Seq<char>, preview: Seq<char>, position: nat)
    ensures
        ({
            let line = label_text(code, preview, position);
            let c = code.len() as int;
            let p = c + 3;
            let q = p + preview.len();
            let r = q + 3;
            let e = r + decimal(position).len();
            &&& line.len() == e + 3
            &&& line.subrange(0, c) == code
            &&& line[c] == ' '
            &&& line[c + 1] == '→'
            &&& line[c + 2] == ' '
            &&& line.subrange(p, q) == preview
            &&& line[q] == '（'
            &&& line[q + 1] == '第'
            &&& line[q + 2] == ' '
            &&& line.subrange(r, e) == decimal(position)
            &&& line[e] == ' '
            &&& line[e + 1] == '位'
            &&& line[e + 2] == '）'
        }),
{
    reveal_strlit(" → ");
    reveal_strlit("（第 ");
    reveal_strlit(" 位）");
    let line = label_text(code, preview, position);
    let c = code.len() as int;
    let p = c + 3;
    let q = p + preview.len();
    let r = q + 3;
    let e = r + decimal(position).len();
    assert(line.subrange(0, c) =~= code);
    assert(line.subrange(p, q) =~= preview);
    assert(line.subrange(r, e) =~= decimal(position));
}

/// A rule's key is its input code, `@`, and the slot in decimal, which reads back as the slot.
pub proof fn lemma_phrase_key_parts(code: Seq<char>, position: nat)
    ensures
        ({
            let key = phrase_key_text(code, position);
            let c = code.len() as int;
            &&& key.len() == c + 1 + decimal(position).len()
            &&& key.subrange(0, c) == code
            &&& key[c] == '@'
            &&& digits_value(key.skip(c + 1)) == position
        }),
{
    reveal_strlit("@");
    let key = phrase_key_text(code, position);
    let c = code.len() as int;
    assert(key.subrange(0, c) =~= code);
    assert(key.skip(c + 1) =~= decimal(position));
    lemma_decimal_value(position);
}

} // verus!
