use yabridgectl::text::{
    bytes_stand_at, chars_of, same_text, stands_at, strip_prefix, trim_line_feed,
};

#[test]
fn chars_of_text() {
    assert_eq!(chars_of("aé\n"), vec!['a', 'é', '\n']);
    assert_eq!(chars_of(""), Vec::<char>::new());
}

#[test]
fn same_text_compares_characters() {
    assert!(same_text("bash", "bash"));
    assert!(!same_text("bash", "dash"));
    assert!(!same_text("bash", "bas"));
    assert!(same_text("", ""));
}

#[test]
fn one_line_feed_is_trimmed() {
    assert_eq!(trim_line_feed(String::from("wine-6.4\n")), "wine-6.4");
    assert_eq!(trim_line_feed(String::from("wine-6.4\n\n")), "wine-6.4\n");
    assert_eq!(trim_line_feed(String::from("\n")), "");
}

#[test]
fn nothing_else_is_trimmed() {
    assert_eq!(trim_line_feed(String::from("wine-6.4")), "wine-6.4");
    assert_eq!(trim_line_feed(String::from("wine-6.4\r\n")), "wine-6.4\r");
    assert_eq!(trim_line_feed(String::from("wine-6.4 ")), "wine-6.4 ");
    assert_eq!(trim_line_feed(String::new()), "");
    assert_eq!(trim_line_feed(String::from("версия\n")), "версия");
}

#[test]
fn prefix_is_stripped() {
    assert_eq!(strip_prefix("wine-6.4 (Staging)", "wine-"), "6.4 (Staging)");
    assert_eq!(strip_prefix("wine-", "wine-"), "");
    assert_eq!(strip_prefix("wine-wine-1", "wine-"), "wine-1");
    assert_eq!(strip_prefix("äöü", "ä"), "öü");
    assert_eq!(strip_prefix("abc", ""), "abc");
}

#[test]
fn text_without_the_prefix_is_left_alone() {
    assert_eq!(strip_prefix("6.4", "wine-"), "6.4");
    assert_eq!(strip_prefix("Wine-6.4", "wine-"), "Wine-6.4");
    assert_eq!(strip_prefix("wine", "wine-"), "wine");
    assert_eq!(strip_prefix("", "wine-"), "");
    assert_eq!(strip_prefix(" wine-6.4", "wine-"), " wine-6.4");
}

#[test]
fn pattern_stands_at_an_index() {
    let chars = chars_of("0123:fixme:rest");
    let fixme = chars_of("fixme");
    assert!(stands_at(&chars, 5, chars.len(), &fixme));
    assert!(stands_at(&chars, 5, 10, &fixme));
    assert!(!stands_at(&chars, 5, 9, &fixme));
    assert!(!stands_at(&chars, 4, chars.len(), &fixme));
    assert!(stands_at(&chars, 15, 15, &Vec::new()));
}

#[test]
fn pattern_stands_nowhere_outside_the_text() {
    let chars = chars_of("fixme");
    let fixme = chars_of("fixme");
    assert!(stands_at(&chars, 0, 5, &fixme));
    assert!(!stands_at(&chars, 0, 6, &fixme));
    assert!(!stands_at(&chars, 3, 2, &Vec::new()));
    assert!(!stands_at(&chars, 6, 6, &Vec::new()));
}

#[test]
fn bytes_stand_at_an_index() {
    assert!(bytes_stand_at(b"0123:fixme:rest", 5, b"fixme"));
    assert!(bytes_stand_at(b"0123:fixme", 5, b"fixme"));
    assert!(!bytes_stand_at(b"0123:fixm", 5, b"fixme"));
    assert!(!bytes_stand_at(b"0123:fixme", 4, b"fixme"));
    assert!(!bytes_stand_at(b"0123:fixme", 6, b"fixme"));
    assert!(bytes_stand_at("é123fixme".as_bytes(), 5, b"fixme"));
    assert!(bytes_stand_at(b"abc", 3, b""));
    assert!(!bytes_stand_at(b"abc", 4, b""));
    assert!(!bytes_stand_at(b"", usize::MAX, b"x"));
}
