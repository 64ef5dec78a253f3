use task_timer::text::{
    chars_of, find, find_from, is_space_char, join_with_newlines, occurs_at, replace_all_in,
    replace_first_in, split_lines, string_of, trim_start_of,
};

fn cs(s: &str) -> Vec<char> {
    s.chars().collect()
}

fn replaced(s: &str, pat: &str, rep: &str) -> String {
    string_of(&replace_all_in(&cs(s), &cs(pat), &cs(rep)))
}

fn replaced_once(s: &str, pat: &str, rep: &str) -> String {
    string_of(&replace_first_in(&cs(s), &cs(pat), &cs(rep)))
}

fn lines(s: &str) -> Vec<String> {
    split_lines(&cs(s)).iter().map(string_of).collect()
}

#[test]
fn characters_round_trip() {
    assert_eq!(chars_of("a\u{3042}b"), vec!['a', '\u{3042}', 'b']);
    assert_eq!(string_of(&vec!['a', '\u{3042}', 'b']), "a\u{3042}b");
    assert_eq!(string_of(&chars_of("")), "");
}

#[test]
fn white_space_is_what_the_standard_library_trims() {
    for n in 0u32..=0x10FFFF {
        if let Some(c) = char::from_u32(n) {
            assert_eq!(is_space_char(c), c.is_whitespace(), "U+{:04X}", n);
        }
    }
}

#[test]
fn trims_on_the_left_only() {
    for s in ["", "   ", "  a  ", "\t\n\u{a0}\u{3000}x y ", "x", "\u{200b}a"] {
        assert_eq!(string_of(&trim_start_of(&cs(s))), s.trim_start());
    }
}

#[test]
fn finds_the_leftmost_occurrence() {
    assert_eq!(find(&cs("abcabc"), &cs("bc")), Some(1));
    assert_eq!(find_from(&cs("abcabc"), &cs("bc"), 2), Some(4));
    assert_eq!(find_from(&cs("abcabc"), &cs("bc"), 5), None);
    assert_eq!(find(&cs("abc"), &cs("abcd")), None);
    assert_eq!(find(&cs("abc"), &cs("")), Some(0));
    assert_eq!(find_from(&cs("abc"), &cs(""), 3), Some(3));
    assert_eq!(find_from(&cs("abc"), &cs(""), 4), None);
    assert!(occurs_at(&cs("abc"), &cs("c"), 2));
    assert!(!occurs_at(&cs("abc"), &cs("c"), 3));
    assert!(!occurs_at(&cs("abc"), &cs("c"), usize::MAX));
}

#[test]
fn replaces_every_occurrence_like_the_standard_library() {
    let cases = [
        ("a**b**c", "**", ""),
        ("***", "**", ""),
        ("aaaa", "aa", "b"),
        ("aaa", "aa", "aaa"),
        ("abc", "x", "y"),
        ("", "x", "y"),
        ("abc", "", "-"),
        ("", "", "-"),
        ("line1<br/>line2<br>line3", "<br/>", "\n"),
    ];
    for (s, pat, rep) in cases {
        assert_eq!(replaced(s, pat, rep), s.replace(pat, rep), "{:?} {:?} {:?}", s, pat, rep);
    }
}

#[test]
fn replaces_the_first_occurrence_like_the_standard_library() {
    let cases = [
        ("- [ ] a - [ ] b", "- [ ]", "- [x]"),
        ("abc", "x", "y"),
        ("abc", "", "-"),
        ("abcabc", "c", ""),
        ("", "a", "b"),
    ];
    for (s, pat, rep) in cases {
        assert_eq!(replaced_once(s, pat, rep), s.replacen(pat, rep, 1));
    }
}

#[test]
fn splits_lines_like_the_standard_library() {
    for s in ["", "a", "a\n", "a\nb", "a\n\nb", "\n", "\n\n", "a\r\nb\r\n", "a\rb\r", "a\r", "\r\n", "a\n\r"] {
        let expected: Vec<String> = s.lines().map(|l| l.to_string()).collect();
        assert_eq!(lines(s), expected, "{:?}", s);
    }
}

#[test]
fn joins_with_single_line_feeds() {
    assert_eq!(string_of(&join_with_newlines(&vec![])), "");
    assert_eq!(string_of(&join_with_newlines(&vec![cs("a")])), "a");
    assert_eq!(string_of(&join_with_newlines(&vec![cs("a"), cs(""), cs("b")])), "a\n\nb");
}
