use sr_core::text::{
    chars_of, contains_chars, decimal_of, matches_at, same_chars, skip_chars, skip_leading,
    starts_with_chars, text_of, to_lowercase, to_uppercase,
};

#[test]
fn lowercase_folds_ascii_letters_only() {
    assert_eq!(to_lowercase("MODEL_Waifu2x-UP2X [a]"), "model_waifu2x-up2x [a]");
    assert_eq!(to_lowercase(""), "");
}

#[test]
fn uppercase_folds_ascii_letters_only() {
    assert_eq!(to_uppercase("model_waifu2x_up2x{z}"), "MODEL_WAIFU2X_UP2X{Z}");
    assert_eq!(to_uppercase("@`"), "@`");
}

#[test]
fn lowercase_of_other_text_is_the_standard_one() {
    assert_eq!(to_lowercase("ÉCOLE Σ"), "école σ");
}

#[test]
fn uppercase_of_other_text_is_the_standard_one() {
    assert_eq!(to_uppercase("straße"), "STRASSE");
}

#[test]
fn characters_round_trip() {
    let chars = chars_of("a_é");
    assert_eq!(chars, vec!['a', '_', 'é']);
    assert_eq!(text_of(&chars), "a_é");
}

#[test]
fn same_chars_compares_content() {
    assert!(same_chars(&chars_of("abc"), &chars_of("abc")));
    assert!(!same_chars(&chars_of("abc"), &chars_of("abd")));
    assert!(!same_chars(&chars_of("abc"), &chars_of("ab")));
    assert!(same_chars(&chars_of(""), &chars_of("")));
}

#[test]
fn prefix_and_offset_matches() {
    let name = chars_of("waifu2x_cunet");
    assert!(starts_with_chars(&name, &chars_of("waifu2x")));
    assert!(starts_with_chars(&name, &chars_of("")));
    assert!(!starts_with_chars(&name, &chars_of("waifu2y")));
    assert!(!starts_with_chars(&chars_of("wai"), &chars_of("waifu2x")));
    assert!(matches_at(&name, &chars_of("cunet"), 8));
    assert!(!matches_at(&name, &chars_of("cunet"), 9));
    assert!(!matches_at(&name, &chars_of("cunet"), usize::MAX));
}

#[test]
fn contains_finds_a_text_anywhere() {
    let hay = chars_of("waifu2x_cunet_up2x");
    assert!(contains_chars(&hay, &chars_of("cunet_up2x")));
    assert!(contains_chars(&hay, &chars_of("waifu")));
    assert!(contains_chars(&hay, &chars_of("x")));
    assert!(contains_chars(&hay, &chars_of("")));
    assert!(contains_chars(&chars_of(""), &chars_of("")));
    assert!(!contains_chars(&hay, &chars_of("up3x")));
    assert!(!contains_chars(&chars_of("up2x"), &hay));
}

#[test]
fn leading_run_is_trimmed() {
    assert_eq!(skip_leading(&chars_of("__a_b"), '_'), chars_of("a_b"));
    assert_eq!(skip_leading(&chars_of("a_b"), '_'), chars_of("a_b"));
    assert_eq!(skip_leading(&chars_of("___"), '_'), chars_of(""));
    assert_eq!(skip_leading(&chars_of(""), '_'), chars_of(""));
    assert_eq!(skip_chars(&chars_of("MODEL_X"), 6), chars_of("X"));
}

#[test]
fn decimal_text_of_integers() {
    assert_eq!(decimal_of(0), "0");
    assert_eq!(decimal_of(7), "7");
    assert_eq!(decimal_of(10), "10");
    assert_eq!(decimal_of(1234), "1234");
    assert_eq!(decimal_of(-1), "-1");
    assert_eq!(decimal_of(-905), "-905");
    assert_eq!(decimal_of(i32::MAX), "2147483647");
    assert_eq!(decimal_of(i32::MIN), "-2147483648");
}
