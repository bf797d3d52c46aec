use sopmod::text::{
    clone_strings, joined, contains, contains_text, ends_with, parse_u32, split, starts_with,
    str_eq, strip_prefix, trim,
};

#[test]
fn str_eq_compares_characters() {
    assert!(str_eq("", ""));
    assert!(str_eq("go", "go"));
    assert!(!str_eq("go", "sop"));
    assert!(!str_eq("go", "go "));
    assert!(str_eq("héllo", "héllo"));
}

#[test]
fn starts_and_ends() {
    assert!(starts_with("go1.22.1", "go1.22"));
    assert!(starts_with("go", ""));
    assert!(!starts_with("go", "go1"));
    assert!(!starts_with("1.22.1", "1.23"));
    assert!(ends_with("sop.tar.gz", ".tar.gz"));
    assert!(ends_with("dir/", "/"));
    assert!(!ends_with("sop.zip", ".tgz"));
    assert!(!ends_with("p", "zip"));
    assert!(ends_with("", ""));
}

#[test]
fn strip_prefix_removes_it_once() {
    assert_eq!(strip_prefix("go1.22.1", "go"), "1.22.1");
    assert_eq!(strip_prefix("gogo", "go"), "go");
    assert_eq!(strip_prefix("1.22.1", "go"), "1.22.1");
    assert_eq!(strip_prefix("v", "v"), "");
    assert_eq!(strip_prefix("", "v"), "");
}

#[test]
fn joined_puts_one_after_the_other() {
    assert_eq!(joined("sop ", "0.4.1"), "sop 0.4.1");
    assert_eq!(joined("", ""), "");
}

#[test]
fn split_gives_one_more_piece_than_separators() {
    assert_eq!(split("1.22.0", '.'), vec!["1", "22", "0"]);
    assert_eq!(split("latest", '.'), vec!["latest"]);
    assert_eq!(split("", '.'), vec![""]);
    assert_eq!(split(".", '.'), vec!["", ""]);
    assert_eq!(split("1..2.", '.'), vec!["1", "", "2", ""]);
    assert_eq!(split("a.b", ','), vec!["a.b"]);
}

#[test]
fn split_agrees_with_std() {
    for text in ["", ".", "..", "1.2", ".1.2.", "1.22.0-rc.1", "über.straße"] {
        let expected: Vec<String> = text.split('.').map(|p| p.to_string()).collect();
        assert_eq!(split(text, '.'), expected);
    }
}

#[test]
fn parse_u32_reads_decimal_numbers() {
    assert_eq!(parse_u32("0"), Some(0));
    assert_eq!(parse_u32("22"), Some(22));
    assert_eq!(parse_u32("007"), Some(7));
    assert_eq!(parse_u32("+5"), Some(5));
    assert_eq!(parse_u32("4294967295"), Some(4294967295));
    assert_eq!(parse_u32("4294967296"), None);
    assert_eq!(parse_u32("99999999999999999999"), None);
    assert_eq!(parse_u32(""), None);
    assert_eq!(parse_u32("+"), None);
    assert_eq!(parse_u32("-1"), None);
    assert_eq!(parse_u32("++1"), None);
    assert_eq!(parse_u32("1a"), None);
    assert_eq!(parse_u32("rc1"), None);
    assert_eq!(parse_u32(" 1"), None);
    assert_eq!(parse_u32("١"), None);
}

#[test]
fn parse_u32_agrees_with_std() {
    for text in ["0", "1", "+1", "-0", "+", "", "00", "4294967295", "4294967296", "42949672950", "1_0", "٣"] {
        assert_eq!(parse_u32(text), text.parse::<u32>().ok());
    }
}

#[test]
fn contains_finds_a_run_of_characters() {
    assert!(contains("/usr/bin:/home/u/.sopmod/bin", "/home/u/.sopmod/bin"));
    assert!(contains("abc", ""));
    assert!(contains("", ""));
    assert!(contains("abc", "abc"));
    assert!(contains("abc", "c"));
    assert!(!contains("abc", "abcd"));
    assert!(!contains("/usr/bin", "/home/u/.sopmod/bin"));
    assert!(!contains("", "a"));
}

#[test]
fn lists_of_strings() {
    let list = vec!["1.21.0".to_string(), "1.22.0".to_string()];
    assert_eq!(clone_strings(&list), list);
    assert!(contains_text(&list, "1.22.0"));
    assert!(!contains_text(&list, "1.22"));
    assert!(!contains_text(&Vec::new(), ""));
}

#[test]
fn trim_drops_white_space_at_both_ends() {
    assert_eq!(trim("  yes \n"), "yes");
    assert_eq!(trim("y e s"), "y e s");
    assert_eq!(trim("\t\r\n"), "");
    assert_eq!(trim(""), "");
    assert_eq!(trim("a"), "a");
    assert_eq!(trim(" a"), "a");
    assert_eq!(trim("a "), "a");
}

#[test]
fn trim_agrees_with_std() {
    for text in [
        "",
        " ",
        "\u{a0}yes\u{3000}",
        "\u{85}\u{2028} x \u{2029}\u{205f}",
        "\u{200b}zero width\u{200b}",
        "  two  words  ",
        "\u{1680}\u{2000}\u{200a}\u{202f}",
        "no-space",
        "\u{b}\u{c}v\u{1c}",
    ] {
        assert_eq!(trim(text), text.trim());
    }
}
