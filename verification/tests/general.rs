use qingjian::combo::{index_of, labels, string_combo};
use qingjian::general::{view, GeneralSettings, LANGUAGES, SHUANGPIN};

const SWITCHES: [(&str, &str); 4] =
    [("Shift", "shift"), ("Ctrl", "control"), ("Ctrl + Space", "ctrl_space"), ("None", "none")];

fn settings() -> GeneralSettings {
    GeneralSettings {
        learning_language: "ja".to_string(),
        page_size: 7,
        shuangpin: String::new(),
        zhuyin: true,
        full_width_punctuation: true,
        english_full_width_punctuation: false,
        english_candidates: false,
        english_candidates_off: vec!["Code.exe".to_string()],
        switch_mode: "ctrl_space".to_string(),
        english_mode: true,
    }
}

#[test]
fn index_of_finds_the_first_matching_value() {
    assert_eq!(index_of(&LANGUAGES, "en"), Some(0));
    assert_eq!(index_of(&LANGUAGES, "es"), Some(2));
    assert_eq!(index_of(&LANGUAGES, "fr"), None);
    assert_eq!(index_of(&SHUANGPIN, ""), Some(0));
    assert_eq!(index_of(&SHUANGPIN, "sogou"), Some(4));
    assert_eq!(index_of(&[("a", "x"), ("b", "x")], "x"), Some(0));
    assert_eq!(index_of(&[], "x"), None);
}

#[test]
fn string_combo_lists_labels_and_selects() {
    let combo = string_combo(&SHUANGPIN, "microsoft");
    assert_eq!(combo.items, vec!["全拼（不启用双拼）", "小鹤双拼", "自然码", "微软双拼", "搜狗双拼"]);
    assert_eq!(combo.selected, Some(3));
    assert_eq!(string_combo(&LANGUAGES, "de").selected, None);
    assert_eq!(labels(&LANGUAGES), vec!["英语", "日语", "西班牙语"]);
}

#[test]
fn general_page_reflects_settings() {
    let page = view(&settings(), &SWITCHES, 9);
    assert_eq!(page.learning_language.selected, Some(1));
    assert_eq!(page.learning_language.items, vec!["英语", "日语", "西班牙语"]);
    assert_eq!(page.page_size.minimum, 1);
    assert_eq!(page.page_size.maximum, 9);
    assert_eq!(page.page_size.value, 7);
    assert_eq!(page.shuangpin.selected, Some(0));
    assert!(page.zhuyin);
    assert!(page.full_width_punctuation);
    assert!(!page.english_full_width_punctuation);
    assert!(!page.english_candidates);
    assert!(page.english_off_in_apps.on);
    assert!(!page.english_off_in_apps.enabled);
    assert_eq!(page.switch_mode.selected, Some(2));
    assert_eq!(page.switch_mode.items, vec!["Shift", "Ctrl", "Ctrl + Space", "None"]);
    assert!(page.english_mode);
}

#[test]
fn english_off_toggle_follows_list_and_candidates() {
    let mut s = settings();
    s.english_candidates_off.clear();
    s.english_candidates = true;
    let page = view(&s, &SWITCHES, 9);
    assert!(!page.english_off_in_apps.on);
    assert!(page.english_off_in_apps.enabled);
}
