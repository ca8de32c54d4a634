use denim::text::{chars_of, joined, lines_of, same_text, string_from, trimmed};

fn text(s: &str) -> Vec<char> {
    s.chars().collect()
}

fn strings(rows: &[Vec<char>]) -> Vec<String> {
    rows.iter().map(|row| row.iter().collect()).collect()
}

#[test]
fn chars_and_strings_convert_both_ways() {
    assert_eq!(chars_of("héllo"), vec!['h', 'é', 'l', 'l', 'o']);
    assert_eq!(string_from(&text("héllo")), "héllo");
    assert_eq!(chars_of(""), Vec::<char>::new());
}

#[test]
fn trimmed_drops_surrounding_white_space_only() {
    assert_eq!(trimmed(&text("  \t a b \r\n")), text("a b"));
    assert_eq!(trimmed(&text("a")), text("a"));
    assert_eq!(trimmed(&text(" \n\t ")), text(""));
    assert_eq!(trimmed(&text("")), text(""));
}

#[test]
fn trimmed_knows_unicode_white_space() {
    assert_eq!(trimmed(&text("\u{a0}\u{3000}x\u{2003}")), text("x"));
    assert_eq!(trimmed(&text("\u{200b}x")), text("\u{200b}x"));
}

#[test]
fn trimmed_agrees_with_std() {
    for s in ["", " ", "a", " a", "a ", "\ta b\t", "\r\n", "  /* Cargo.toml  ", "\u{85}x\u{85}"] {
        assert_eq!(string_from(&trimmed(&text(s))), s.trim());
    }
}

#[test]
fn lines_end_at_line_feeds() {
    assert_eq!(strings(&lines_of(&text("a\nb\nc"))), vec!["a", "b", "c"]);
    assert_eq!(strings(&lines_of(&text("a\n\nb"))), vec!["a", "", "b"]);
}

#[test]
fn final_line_ending_starts_no_line() {
    assert_eq!(strings(&lines_of(&text("a\n"))), vec!["a"]);
    assert_eq!(strings(&lines_of(&text("\n"))), vec![""]);
    assert_eq!(strings(&lines_of(&text(""))), Vec::<String>::new());
}

#[test]
fn carriage_return_before_line_feed_is_part_of_the_ending() {
    assert_eq!(strings(&lines_of(&text("a\r\nb\r\n"))), vec!["a", "b"]);
    assert_eq!(strings(&lines_of(&text("a\r"))), vec!["a\r"]);
    assert_eq!(strings(&lines_of(&text("a\rb\n"))), vec!["a\rb"]);
    assert_eq!(strings(&lines_of(&text("\r\n"))), vec![""]);
    assert_eq!(strings(&lines_of(&text("a\r\r\n"))), vec!["a\r"]);
}

#[test]
fn lines_agree_with_std() {
    for s in ["", "\n", "a", "a\n", "a\nb", "a\r\nb", "a\r", "\r", "\n\n", "x\n\r", "a\n\r\nb\n"] {
        let expected: Vec<String> = s.lines().map(|line| line.to_string()).collect();
        assert_eq!(strings(&lines_of(&text(s))), expected, "lines of {:?}", s);
    }
}

#[test]
fn joined_puts_the_separator_between_rows() {
    assert_eq!(joined(&vec![text("a"), text("b"), text("c")], '\n'), "a\nb\nc");
    assert_eq!(joined(&vec![text("a")], '\n'), "a");
    assert_eq!(joined(&vec![], '\n'), "");
    assert_eq!(joined(&vec![text(""), text("")], '\n'), "\n");
    assert_eq!(joined(&vec![text("")], '\n'), "");
}

#[test]
fn same_text_compares_by_characters() {
    assert!(same_text(&text("abc"), &text("abc")));
    assert!(!same_text(&text("abc"), &text("abd")));
    assert!(!same_text(&text("abc"), &text("ab")));
    assert!(same_text(&text(""), &text("")));
}
