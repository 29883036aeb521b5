use pitboss::mention::{argument_user_id, mention_to_user_id, push_mention, user_argument_of};
use pitboss::text::{contains_str, decimal_string, digits_of, parse_digits, push_decimal};

#[test]
fn mention_reads_back_its_user() {
    assert_eq!(mention_to_user_id("<@1234>"), Some(1234));
}

#[test]
fn nickname_mention_reads_back_its_user() {
    assert_eq!(mention_to_user_id("<@!42>"), Some(42));
}

#[test]
fn only_the_first_argument_counts() {
    assert_eq!(mention_to_user_id("<@12> 34"), Some(12));
    assert_eq!(mention_to_user_id("  <@56>   78"), Some(56));
}

#[test]
fn quoted_argument_is_unquoted() {
    assert_eq!(user_argument_of("\"<@77> x\" y"), Some("<@77> x".to_string()));
    assert_eq!(mention_to_user_id("\"<@77>\""), Some(77));
}

#[test]
fn argument_without_digits_has_no_user() {
    assert_eq!(mention_to_user_id("<@abc>"), None);
    assert_eq!(argument_user_id("<@>"), None);
}

#[test]
fn empty_text_and_lone_quote_have_no_user() {
    assert_eq!(user_argument_of(""), None);
    assert_eq!(mention_to_user_id(""), None);
    assert_eq!(user_argument_of("\""), None);
    assert_eq!(mention_to_user_id("\""), None);
    assert_eq!(mention_to_user_id("   "), None);
}

#[test]
fn user_ids_up_to_u64_max_are_read() {
    assert_eq!(mention_to_user_id("<@18446744073709551615>"), Some(u64::MAX));
    assert_eq!(mention_to_user_id("<@18446744073709551616>"), None);
    assert_eq!(mention_to_user_id("<@99999999999999999999999>"), None);
}

#[test]
fn digit_filter_keeps_ascii_digits_only() {
    assert_eq!(digits_of("a1b2c3"), "123");
    assert_eq!(digits_of("<@!-+9>"), "9");
    assert_eq!(digits_of("٣٤5"), "5");
    assert_eq!(digits_of(""), "");
}

#[test]
fn digits_parse_as_decimal() {
    assert_eq!(parse_digits(""), None);
    assert_eq!(parse_digits("007"), Some(7));
    assert_eq!(parse_digits("18446744073709551615"), Some(u64::MAX));
    assert_eq!(parse_digits("18446744073709551616"), None);
}

#[test]
fn decimal_has_no_leading_zeros() {
    assert_eq!(decimal_string(0), "0");
    assert_eq!(decimal_string(7), "7");
    assert_eq!(decimal_string(1234567890), "1234567890");
    assert_eq!(decimal_string(u64::MAX), "18446744073709551615");
    let mut s = String::from("n=");
    push_decimal(&mut s, 305);
    assert_eq!(s, "n=305");
}

#[test]
fn mention_is_written_and_read_back() {
    for id in [0u64, 9, 10, 123456789012345678, u64::MAX] {
        let mut s = String::new();
        push_mention(&mut s, id);
        assert_eq!(s, format!("<@{}>", id));
        assert_eq!(mention_to_user_id(&s), Some(id));
    }
}

#[test]
fn substring_search() {
    assert!(contains_str("unpit", "pit"));
    assert!(contains_str("force_unban", "ban"));
    assert!(!contains_str("unpi", "pit"));
    assert!(contains_str("abc", ""));
    assert!(!contains_str("", "a"));
    assert!(contains_str("pit", "pit"));
}
