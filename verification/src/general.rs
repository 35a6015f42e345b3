//! The "general" page: learning language, candidates per page, shuangpin, zhuyin,
//! punctuation width, English-mode candidates, the Chinese/English switch key and the
//! built-in English mode.
use vstd::prelude::*;

use crate::combo::{is_first_index_of, lemma_index_of_own_value, string_combo, values_distinct, Combo};

verus! {

/// Learning languages: shown name and config value.
pub const LANGUAGES: [(&'static str, &'static str); 3] = [("英语", "en"), ("日语", "ja"), ("西班牙语", "es")];

/// Shuangpin schemes: shown name and config value (the empty value is full pinyin).
pub const SHUANGPIN: [(&'static str, &'static str); 5] = [
    ("全拼（不启用双拼）", ""),
    ("小鹤双拼", "xiaohe"),
    ("自然码", "ziranma"),
    ("微软双拼", "microsoft"),
    ("搜狗双拼", "sogou"),
];

/// The settings the general page shows.
pub struct GeneralSettings {
    /// Config value of the learning language.
    pub learning_language: String,
    /// Candidates per page.
    pub page_size: usize,
    /// Config value of the shuangpin scheme; empty for full pinyin.
    pub shuangpin: String,
    /// Zhuyin keyboard layout.
    pub zhuyin: bool,
    /// Full-width punctuation in Chinese mode.
    pub full_width_punctuation: bool,
    /// Full-width punctuation in English mode.
    pub english_full_width_punctuation: bool,
    /// Candidates in English mode.
    pub english_candidates: bool,
    /// Applications in which English mode gives no candidates.
    pub english_candidates_off: Vec<String>,
    /// Config value of the Chinese/English switch key.
    pub switch_mode: String,
    /// The built-in English mode.
    pub english_mode: bool,
}

/// The candidates-per-page number box: its bounds and value.
pub struct PageSizeBox {
    pub minimum: usize,
    pub maximum: usize,
    pub value: usize,
}

/// A toggle: whether it is on, and whether it can be flipped.
pub struct Toggle {
    pub on: bool,
    pub enabled: bool,
}

/// What the general page shows, row by row.
pub struct GeneralView {
    pub learning_language: Combo,
    pub page_size: PageSizeBox,
    pub shuangpin: Combo,
    pub zhuyin: bool,
    pub full_width_punctuation: bool,
    pub english_full_width_punctuation: bool,
    pub english_candidates: bool,
    pub english_off_in_apps: Toggle,
    pub switch_mode: Combo,
    pub english_mode: bool,
}

/// The drop-down `combo` lists the labels of `options` and selects the entry for `current`.
pub open spec fn shows_options(combo: Combo, options: Seq<(&str, &str)>, current: Seq<char>) -> bool {
    &&& combo.items@.len() == options.len()
    &&& forall|i: int| 0 <= i < options.len() ==> combo.items@[i] == (#[trigger] options[i]).0
    &&& is_first_index_of(options, current, combo.selected)
}

/// The general page for `settings`. `switch_keys` lists the switch keys (shown name and
/// config value) in the order of the config's switch-key enumeration; `max_page_size` is the
/// largest number of candidates per page.
pub fn view(
    settings: &GeneralSettings,
    switch_keys: &[(&'static str, &'static str)],
    max_page_size: usize,
) -> (page: GeneralView)
    ensures
        shows_options(page.learning_language, LANGUAGES@, settings.learning_language@),
        page.page_size.minimum == 1,
        page.page_size.maximum == max_page_size,
        page.page_size.value == settings.page_size,
        shows_options(page.shuangpin, SHUANGPIN@, settings.shuangpin@),
        page.zhuyin == settings.zhuyin,
        page.full_width_punctuation == settings.full_width_punctuation,
        page.english_full_width_punctuation == settings.english_full_width_punctuation,
        page.english_candidates == settings.english_candidates,
        page.english_off_in_apps.on == (settings.english_candidates_off@.len() > 0),
        page.english_off_in_apps.enabled == settings.english_candidates,
        shows_options(page.switch_mode, switch_keys@, settings.switch_mode@),
        page.english_mode == settings.english_mode,
{
    let languages = LANGUAGES;
    let shuangpin = SHUANGPIN;
    GeneralView {
        learning_language: string_combo(&languages, settings.learning_language.as_str()),
        page_size: PageSizeBox { minimum: 1, maximum: max_page_size, value: settings.page_size },
        shuangpin: string_combo(&shuangpin, settings.shuangpin.as_str()),
        zhuyin: settings.zhuyin,
        full_width_punctuation: settings.full_width_punctuation,
        english_full_width_punctuation: settings.english_full_width_punctuation,
        english_candidates: settings.english_candidates,
        english_off_in_apps: Toggle {
            on: !settings.english_candidates_off.is_empty(),
            enabled: settings.english_candidates,
        },
        switch_mode: string_combo(switch_keys, settings.switch_mode.as_str()),
        english_mode: settings.english_mode,
    }
}

/// No two learning languages, and no two shuangpin schemes, share a config value.
pub proof fn lemma_general_tables_distinct()
    ensures
        values_distinct(LANGUAGES@),
        values_distinct(SHUANGPIN@),
{
    reveal_strlit("en");
    reveal_strlit("ja");
    reveal_strlit("es");
    reveal_strlit("");
    reveal_strlit("xiaohe");
    reveal_strlit("ziranma");
    reveal_strlit("microsoft");
    reveal_strlit("sogou");
    assert(LANGUAGES@[0].1@ =~= seq!['e', 'n']);
    assert(LANGUAGES@[1].1@ =~= seq!['j', 'a']);
    assert(LANGUAGES@[2].1@ =~= seq!['e', 's']);
    assert(LANGUAGES@[0].1@[1] != LANGUAGES@[2].1@[1]);
    assert(SHUANGPIN@[0].1@.len() == 0);
    assert(SHUANGPIN@[1].1@[0] == 'x');
    assert(SHUANGPIN@[2].1@[0] == 'z');
    assert(SHUANGPIN@[3].1@[0] == 'm');
    assert(SHUANGPIN@[4].1@[0] == 's');
}

/// When the stored learning language or shuangpin scheme is one of the table's values, the
/// general page selects the entry that writes that value.
pub proof fn lemma_general_view_selects_stored(page: GeneralView, settings: GeneralSettings, i: int)
    requires
        shows_options(page.learning_language, LANGUAGES@, settings.learning_language@),
        shows_options(page.shuangpin, SHUANGPIN@, settings.shuangpin@),
    ensures
        0 <= i < LANGUAGES@.len() && settings.learning_language@ == LANGUAGES@[i].1@
            ==> page.learning_language.selected == Some(i as usize),
        0 <= i < SHUANGPIN@.len() && settings.shuangpin@ == SHUANGPIN@[i].1@
            ==> page.shuangpin.selected == Some(i as usize),
{
    lemma_general_tables_distinct();
    if 0 <= i < LANGUAGES@.len() && settings.learning_language@ == LANGUAGES@[i].1@ {
        lemma_index_of_own_value(LANGUAGES@, i, page.learning_language.selected);
    }
    if 0 <= i < SHUANGPIN@.len() && settings.shuangpin@ == SHUANGPIN@[i].1@ {
        lemma_index_of_own_value(SHUANGPIN@, i, page.shuangpin.selected);
    }
}

} // verus!
