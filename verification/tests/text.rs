use battery_alert::text::decimal_text;
use battery_alert::text::same_text;
use battery_alert::text::signed_decimal_text;
use battery_alert::text::starts_with;

#[test]
fn same_text_compares_every_character() {
    assert!(same_text("", ""));
    assert!(same_text("Charging", "Charging"));
    assert!(!same_text("Charging", "Charginh"));
    assert!(!same_text("Charging", "Chargin"));
    assert!(!same_text("a", ""));
}

#[test]
fn starts_with_looks_at_the_front_only() {
    assert!(starts_with("BAT0", "BAT"));
    assert!(starts_with("BAT0", ""));
    assert!(starts_with("BAT", "BAT"));
    assert!(!starts_with("BA", "BAT"));
    assert!(!starts_with("0BAT", "BAT"));
}

#[test]
fn decimal_of_unsigned_numbers() {
    assert_eq!(decimal_text(0), "0");
    assert_eq!(decimal_text(7), "7");
    assert_eq!(decimal_text(10), "10");
    assert_eq!(decimal_text(1234567890), "1234567890");
    assert_eq!(decimal_text(u32::MAX), "4294967295");
}

#[test]
fn decimal_of_signed_numbers() {
    assert_eq!(signed_decimal_text(0), "0");
    assert_eq!(signed_decimal_text(42), "42");
    assert_eq!(signed_decimal_text(-1), "-1");
    assert_eq!(signed_decimal_text(i32::MAX), "2147483647");
    assert_eq!(signed_decimal_text(i32::MIN), "-2147483648");
}
