use aliace::db::CommandModel;
use aliace::registry::filter_commands;
use aliace::text::{
    chars_of, contains, is_whitespace, owned, parse_comma_list, replace_all, split_on_char,
    starts_with, str_eq, string_from_chars, to_decimal, trim,
};

#[test]
fn trim_removes_surrounding_whitespace() {
    assert_eq!(trim("  hello world \t\n"), "hello world");
    assert_eq!(trim(""), "");
    assert_eq!(trim("   "), "");
    assert_eq!(trim("\u{a0}x\u{2003}"), "x");
    assert_eq!(trim("a b"), "a b");
}

#[test]
fn whitespace_classification() {
    assert!(is_whitespace(' '));
    assert!(is_whitespace('\t'));
    assert!(is_whitespace('\u{2028}'));
    assert!(!is_whitespace('x'));
    assert!(!is_whitespace('_'));
}

#[test]
fn decimal_rendering() {
    assert_eq!(to_decimal(0), "0");
    assert_eq!(to_decimal(7), "7");
    assert_eq!(to_decimal(42), "42");
    assert_eq!(to_decimal(100), "100");
    assert_eq!(to_decimal(u64::MAX), "18446744073709551615");
}

#[test]
fn replace_every_occurrence() {
    assert_eq!(replace_all("git commit -m \"<message>\"", "<message>", "Initial release"), "git commit -m \"Initial release\"");
    assert_eq!(replace_all("<a> and <a>", "<a>", "x"), "x and x");
    assert_eq!(replace_all("aaa", "aa", "b"), "ba");
    assert_eq!(replace_all("nothing here", "<x>", "y"), "nothing here");
}

#[test]
fn split_keeps_empty_pieces() {
    assert_eq!(split_on_char("a,b,,c", ','), vec!["a", "b", "", "c"]);
    assert_eq!(split_on_char("", ','), vec![""]);
    assert_eq!(split_on_char(",", ','), vec!["", ""]);
    assert_eq!(split_on_char("abc", ','), vec!["abc"]);
}

#[test]
fn comma_list_trims_items() {
    assert_eq!(parse_comma_list("build, test ,deploy"), vec!["build", "test", "deploy"]);
    assert_eq!(parse_comma_list(""), Vec::<String>::new());
    assert_eq!(parse_comma_list(" one "), vec!["one"]);
    assert_eq!(parse_comma_list("a,,b"), vec!["a", "", "b"]);
}

#[test]
fn substring_search() {
    assert!(contains("hello world", "o w"));
    assert!(contains("hello", ""));
    assert!(!contains("hello", "world"));
    assert!(!contains("", "a"));
    assert!(contains("abc", "abc"));
}

#[test]
fn search_compares_unicode_lowercase() {
    let cmds = vec![CommandModel {
        title: "ÄRGER".to_string(),
        description: String::new(),
        script: "echo".to_string(),
        group: None,
        use_count: 0,
        favorite: false,
    }];
    assert_eq!(filter_commands(&cmds, "ärger", false).len(), 1);
    assert_eq!(filter_commands(&cmds, "ÄrGeR", false).len(), 1);
    assert_eq!(filter_commands(&cmds, "Ärgerlich", false).len(), 0);
}

#[test]
fn character_helpers() {
    assert!(starts_with("-v", '-'));
    assert!(!starts_with("v", '-'));
    assert!(!starts_with("", '-'));
    assert!(str_eq("abc", "abc"));
    assert!(!str_eq("abc", "abd"));
    assert_eq!(chars_of("héllo"), vec!['h', 'é', 'l', 'l', 'o']);
    let v = vec!['a', 'b', 'c', 'd'];
    assert_eq!(string_from_chars(&v, 1, 3), "bc");
    assert_eq!(owned("x"), "x".to_string());
}
