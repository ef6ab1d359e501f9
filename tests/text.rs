use iap::text::{decimal_text, same_text};

#[test]
fn decimal_text_renders_signed_integers() {
    assert_eq!(decimal_text(0), "0");
    assert_eq!(decimal_text(7), "7");
    assert_eq!(decimal_text(1700000000000), "1700000000000");
    assert_eq!(decimal_text(-5), "-5");
    assert_eq!(decimal_text(-10), "-10");
    assert_eq!(decimal_text(i64::MAX), "9223372036854775807");
    assert_eq!(decimal_text(i64::MIN), "-9223372036854775808");
}

#[test]
fn same_text_compares_characters() {
    assert!(same_text("subs", "subs"));
    assert!(!same_text("subs", "Subs"));
    assert!(!same_text("subs", "subs "));
    assert!(same_text("", ""));
}
