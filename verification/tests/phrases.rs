use qingjian::phrases::{
    label, phrase_key, position_combo, position_index, rule_row, view, CustomPhrase, POSITIONS,
    POSITION_COUNT,
};

fn phrase(code: &str, text: &str, position: usize, enabled: bool) -> CustomPhrase {
    CustomPhrase { code: code.to_string(), text: text.to_string(), position, enabled }
}

#[test]
fn position_index_maps_slots_to_rows() {
    assert_eq!(position_index(0), 0);
    assert_eq!(position_index(1), 0);
    assert_eq!(position_index(2), 1);
    assert_eq!(position_index(9), 8);
    assert_eq!(position_index(10), 8);
    assert_eq!(position_index(usize::MAX), 8);
}

#[test]
fn position_combo_lists_nine_slots() {
    let combo = position_combo(3);
    assert_eq!(combo.items.len(), POSITION_COUNT);
    assert_eq!(combo.items, POSITIONS.to_vec());
    assert_eq!(combo.items[0], "第 1 位");
    assert_eq!(combo.items[8], "第 9 位");
    assert_eq!(combo.selected, Some(2));
    assert_eq!(combo.items[combo.selected.unwrap()], "第 3 位");
    assert_eq!(position_combo(0).selected, Some(0));
    assert_eq!(position_combo(42).selected, Some(8));
}

#[test]
fn label_previews_a_rule() {
    let p = phrase("ye", "也", 1, true);
    assert_eq!(label(&p, "也"), "ye → 也（第 1 位）");
    let p = phrase("nihao", "你好，世界", 12, true);
    assert_eq!(label(&p, "你好…"), "nihao → 你好…（第 12 位）");
}

#[test]
fn phrase_key_is_code_and_position() {
    assert_eq!(phrase_key(&phrase("ye", "也", 1, true)), "ye@1");
    assert_eq!(phrase_key(&phrase("prompt", "x", 105, false)), "prompt@105");
    assert_eq!(phrase_key(&phrase("a", "x", 0, false)), "a@0");
    assert_ne!(
        phrase_key(&phrase("ye", "也", 1, true)),
        phrase_key(&phrase("ye", "也", 2, true))
    );
}

#[test]
fn rule_row_carries_index_check_label_and_key() {
    let p = phrase("ye", "也", 1, false);
    let row = rule_row(4, &p, "也");
    assert_eq!(row.index, 4);
    assert!(!row.checked);
    assert_eq!(row.label, "ye → 也（第 1 位）");
    assert_eq!(row.key, "ye@1");
}

#[test]
fn empty_page_shows_the_note() {
    let page = view(&[], &[], "", "", "", 1);
    assert!(page.empty_note);
    assert!(page.rows.is_empty());
    assert!(page.error.is_none());
    assert_eq!(page.position.selected, Some(0));
}

#[test]
fn page_lists_rules_and_error() {
    let phrases = vec![phrase("ye", "也", 1, true), phrase("nihao", "你好", 3, false)];
    let previews = vec!["也".to_string(), "你好".to_string()];
    let page = view(&phrases, &previews, "输入码重复", "ye", "也", 5);
    assert!(!page.empty_note);
    assert_eq!(page.rows.len(), 2);
    assert_eq!(page.rows[0].index, 0);
    assert!(page.rows[0].checked);
    assert_eq!(page.rows[0].key, "ye@1");
    assert_eq!(page.rows[1].index, 1);
    assert!(!page.rows[1].checked);
    assert_eq!(page.rows[1].label, "nihao → 你好（第 3 位）");
    assert_eq!(page.error.as_deref(), Some("输入码重复"));
    assert_eq!(page.position.selected, Some(4));
    assert_eq!(page.code, "ye");
    assert_eq!(page.text, "也");
}

#[test]
fn page_rows_have_distinct_keys() {
    let phrases = vec![
        phrase("ye", "也", 1, true),
        phrase("ye", "页", 2, true),
        phrase("y", "一", 11, true),
        phrase("y", "么", 1, true),
    ];
    let previews: Vec<String> = phrases.iter().map(|p| p.text.clone()).collect();
    let page = view(&phrases, &previews, "", "", "", 1);
    for i in 0..page.rows.len() {
        for j in 0..page.rows.len() {
            if i != j {
                assert_ne!(page.rows[i].key, page.rows[j].key);
            }
        }
    }
}
