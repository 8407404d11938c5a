use hostmon::text::{contains_char, push_decimal, push_digit, starts_with};

#[test]
fn contains_char_finds_a_character_anywhere() {
    assert!(contains_char("192.168.1.5", '.'));
    assert!(contains_char(".", '.'));
    assert!(contains_char("abc.", '.'));
    assert!(!contains_char("fe80::1", '.'));
    assert!(!contains_char("", '.'));
    assert!(contains_char("grüße", 'ß'));
    assert!(!contains_char("grüße", 's'));
}

#[test]
fn starts_with_compares_from_the_start() {
    assert!(starts_with("docker0", "docker"));
    assert!(starts_with("docker", "docker"));
    assert!(starts_with("anything", ""));
    assert!(starts_with("", ""));
    assert!(!starts_with("dock", "docker"));
    assert!(!starts_with("mydocker", "docker"));
    assert!(!starts_with("", "wg"));
    assert!(!starts_with("Wg0", "wg"));
    assert!(starts_with("äöü", "äö"));
}

#[test]
fn push_decimal_appends_the_numeral() {
    let mut out = String::from("n=");
    push_decimal(&mut out, 0);
    assert_eq!(out, "n=0");
    push_decimal(&mut out, 7);
    push_decimal(&mut out, 10);
    push_decimal(&mut out, 1234567890);
    assert_eq!(out, "n=07101234567890");
    let mut big = String::new();
    push_decimal(&mut big, u128::MAX);
    assert_eq!(big, "340282366920938463463374607431768211455");
}

#[test]
fn push_digit_appends_one_digit() {
    let mut out = String::new();
    for d in 0..10u8 {
        push_digit(&mut out, d);
    }
    assert_eq!(out, "0123456789");
}
