use coverage_annotations::number::parse_i32;
use coverage_annotations::paths::{classify_file, FileKind};
use coverage_annotations::text::{
    chars_of, contains, finishes_with, has_token_at, same_text, slashed, starts_with,
};

fn chars(text: &str) -> Vec<char> {
    text.chars().collect()
}

#[test]
fn characters_come_out_in_order() {
    assert_eq!(chars_of(""), Vec::<char>::new());
    assert_eq!(chars_of("abc"), vec!['a', 'b', 'c']);
    assert_eq!(chars_of("é✓z"), vec!['é', '✓', 'z']);
}

#[test]
fn token_is_found_where_it_stands() {
    assert!(contains(&chars("hello world"), "hello"));
    assert!(contains(&chars("hello world"), "o w"));
    assert!(contains(&chars("hello world"), "world"));
    assert!(contains(&chars("hello world"), ""));
    assert!(contains(&chars(""), ""));
    assert!(contains(&chars("aaab"), "aab"));
    assert!(!contains(&chars("hello world"), "worlds"));
    assert!(!contains(&chars("hello"), "hello world"));
    assert!(!contains(&chars(""), "a"));
    assert!(!contains(&chars("abab"), "ba b"));
}

#[test]
fn token_at_a_position() {
    assert!(has_token_at(&chars("abcdef"), &chars("cd"), 2));
    assert!(!has_token_at(&chars("abcdef"), &chars("cd"), 3));
    assert!(has_token_at(&chars("abcdef"), &chars(""), 6));
    assert!(!has_token_at(&chars("abcdef"), &chars(""), 7));
    assert!(!has_token_at(&chars("abcdef"), &chars("efg"), 4));
    assert!(!has_token_at(&chars("ab"), &chars("a"), usize::MAX));
}

#[test]
fn beginnings_and_ends() {
    assert!(starts_with(&chars("/home/me/src/lib.rs"), "/home/me/src"));
    assert!(starts_with(&chars("/home/me/src"), "/home/me/src"));
    assert!(starts_with(&chars("anything"), ""));
    assert!(!starts_with(&chars("/home/me/sr"), "/home/me/src"));
    assert!(!starts_with(&chars("x/home/me/src"), "/home/me/src"));
    assert!(finishes_with(&chars("lib.rs"), ".rs"));
    assert!(finishes_with(&chars(".rs"), ".rs"));
    assert!(finishes_with(&chars("x"), ""));
    assert!(!finishes_with(&chars("rs"), ".rs"));
    assert!(!finishes_with(&chars("lib.rs "), ".rs"));
}

#[test]
fn directories_end_in_one_slash() {
    assert_eq!(slashed("/p/src".to_string()), "/p/src/");
    assert_eq!(slashed("/p/src/".to_string()), "/p/src/");
    assert_eq!(slashed("".to_string()), "/");
    assert_eq!(slashed("/".to_string()), "/");
}

#[test]
fn same_text_is_equality() {
    assert!(same_text("", ""));
    assert!(same_text("class", "class"));
    assert!(!same_text("class", "classes"));
    assert!(!same_text("classes", "class"));
    assert!(!same_text("class", "clasp"));
    assert!(!same_text("Class", "class"));
}

#[test]
fn numbers_are_read_as_the_standard_library_reads_them() {
    for text in [
        "0",
        "7",
        "42",
        "+42",
        "-42",
        "-0",
        "+0",
        "007",
        "-007",
        "2147483647",
        "+2147483647",
        "-2147483648",
        "2147483648",
        "-2147483649",
        "0000000000000000000000012",
        "99999999999999999999999",
        "-99999999999999999999999",
        "",
        "+",
        "-",
        "+-1",
        "--1",
        " 1",
        "1 ",
        "1_000",
        "1.0",
        "0x10",
        "12a",
        "a12",
        "١٢",
    ] {
        assert_eq!(parse_i32(text), text.parse::<i32>().ok(), "{text:?}");
    }
}

#[test]
fn numbers_have_their_value() {
    assert_eq!(parse_i32("0"), Some(0));
    assert_eq!(parse_i32("120"), Some(120));
    assert_eq!(parse_i32("-120"), Some(-120));
    assert_eq!(parse_i32("2147483647"), Some(i32::MAX));
    assert_eq!(parse_i32("-2147483648"), Some(i32::MIN));
    assert_eq!(parse_i32("2147483648"), None);
    assert_eq!(parse_i32("-2147483649"), None);
    assert_eq!(parse_i32("ten"), None);
}

#[test]
fn files_are_told_apart_by_their_names() {
    assert_eq!(classify_file("/p/target/cov/cobertura.xml"), FileKind::CoverageReport);
    assert_eq!(classify_file("/cobertura.xml"), FileKind::CoverageReport);
    assert_eq!(classify_file("cobertura.xml"), FileKind::Other);
    assert_eq!(classify_file("/p/my-cobertura.xml"), FileKind::Other);
    assert_eq!(classify_file("/p/src/lib.rs"), FileKind::Source);
    assert_eq!(classify_file(".rs"), FileKind::Source);
    assert_eq!(classify_file("/p/src/lib.rs.bak"), FileKind::Other);
    assert_eq!(classify_file("/p/Cargo.toml"), FileKind::Other);
    assert_eq!(classify_file(""), FileKind::Other);
}
