use qingjian::text::{push_decimal, same_text};

#[test]
fn push_decimal_writes_numbers() {
    let mut s = String::from("n=");
    push_decimal(&mut s, 0);
    assert_eq!(s, "n=0");
    let mut s = String::new();
    push_decimal(&mut s, 1234567890);
    assert_eq!(s, "1234567890");
    let mut s = String::new();
    push_decimal(&mut s, usize::MAX);
    assert_eq!(s, usize::MAX.to_string());
}

#[test]
fn same_text_compares_characters() {
    assert!(same_text("青简", "青简"));
    assert!(!same_text("青简", "青"));
    assert!(same_text("", ""));
}
