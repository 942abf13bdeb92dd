use tinypw::faulty::copy_paste_smell;
use tinypw::faulty::do_suspicious_things;
use tinypw::faulty::needless_bool_return;
use tinypw::text::chars_of;
use tinypw::text::contains_char;
use tinypw::text::same_text;

#[test]
fn copy_paste_smell_is_twice_the_range_sum() {
    assert_eq!(copy_paste_smell(1, 4), 12);
    assert_eq!(copy_paste_smell(0, 1), 0);
    assert_eq!(copy_paste_smell(-3, 2), -10);
    assert_eq!(copy_paste_smell(-2, 3), 0);
    assert_eq!(copy_paste_smell(10, 11), 20);
    assert_eq!(copy_paste_smell(0, 101), 10100);
}

#[test]
fn copy_paste_smell_of_an_empty_range_is_zero() {
    assert_eq!(copy_paste_smell(3, 3), 0);
    assert_eq!(copy_paste_smell(5, 2), 0);
    assert_eq!(copy_paste_smell(i32::MAX, i32::MIN), 0);
}

#[test]
fn needless_bool_return_hands_the_flag_back() {
    assert!(needless_bool_return(true));
    assert!(!needless_bool_return(false));
}

#[test]
fn do_suspicious_things_scores_the_text() {
    assert_eq!(do_suspicious_things(None), 2);
    assert_eq!(do_suspicious_things(Some(String::new())), 2);
    assert_eq!(do_suspicious_things(Some("abc".to_string())), 5);
    assert_eq!(do_suspicious_things(Some("a".repeat(41))), 43);
    assert_eq!(do_suspicious_things(Some("a".repeat(42))), 45);
    assert_eq!(do_suspicious_things(Some("a".repeat(43))), 45);
    assert_eq!(do_suspicious_things(Some("é".repeat(21))), 24);
    assert_eq!(do_suspicious_things(Some("é".repeat(42))), 44);
}

#[test]
fn contains_char_finds_a_character_anywhere() {
    assert!(contains_char("ulnse", 'u'));
    assert!(contains_char("ulnse", 'e'));
    assert!(!contains_char("ulnse", 'x'));
    assert!(!contains_char("", 'u'));
    assert!(contains_char("~º", 'º'));
}

#[test]
fn chars_of_keeps_the_order() {
    assert_eq!(chars_of("a~º"), vec!['a', '~', 'º']);
    assert_eq!(chars_of(""), Vec::<char>::new());
}

#[test]
fn same_text_compares_character_by_character() {
    assert!(same_text("weak", "weak"));
    assert!(same_text("", ""));
    assert!(!same_text("weak", "wean"));
    assert!(!same_text("weak", "wea"));
    assert!(!same_text("", "a"));
}
