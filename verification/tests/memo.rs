use task_timer::keys::{Key, KeyEvent};
use task_timer::memo::{classify_line, render, toggle_line, Line, Memo};

fn checkbox(line: &str) -> (bool, String) {
    match classify_line(line) {
        Line::Checkbox { checked, label } => (checked, label),
        other => panic!("no checkbox: {:?}", other),
    }
}

fn bold(line: &str) -> String {
    match classify_line(line) {
        Line::Bold { text } => text,
        other => panic!("not bold: {:?}", other),
    }
}

fn plain(line: &str) -> String {
    match classify_line(line) {
        Line::Plain { text } => text,
        other => panic!("not plain: {:?}", other),
    }
}

fn press(key: Key, alt: bool) -> KeyEvent {
    KeyEvent { key, pressed: true, alt }
}

#[test]
fn ticked_box_is_checked_with_its_label() {
    assert_eq!(checkbox("- [x] done"), (true, "done".to_string()));
}

#[test]
fn open_box_is_unchecked_with_its_label() {
    assert_eq!(checkbox("- [ ] todo"), (false, "todo".to_string()));
}

#[test]
fn capital_mark_is_checked() {
    assert_eq!(checkbox("- [X] done"), (true, "done".to_string()));
}

#[test]
fn plain_text_is_plain() {
    assert_eq!(plain("plain text"), "plain text");
}

#[test]
fn box_may_be_indented_and_label_is_trimmed_on_the_left_only() {
    assert_eq!(checkbox("  \t- [ ]   two words  "), (false, "two words  ".to_string()));
    assert_eq!(checkbox("\u{3000}- [x]"), (true, String::new()));
}

#[test]
fn label_needs_no_blank_after_the_mark() {
    assert_eq!(checkbox("- [ ]todo"), (false, "todo".to_string()));
}

#[test]
fn malformed_boxes_are_no_boxes() {
    assert_eq!(plain("- [y] no"), "- [y] no");
    assert_eq!(plain("-[ ] no"), "-[ ] no");
    assert_eq!(plain("- [ ] no".trim_end_matches("] no")), "- [ ");
    assert_eq!(plain("a - [ ] later"), "a - [ ] later");
    assert_eq!(plain(""), "");
}

#[test]
fn bold_line_loses_its_marks() {
    assert_eq!(bold("**bold**"), "bold");
}

#[test]
fn bold_marks_inside_a_line_are_stripped() {
    assert_eq!(bold("a**b**c"), "abc");
}

#[test]
fn one_or_three_marks_are_stripped_all_the_same() {
    assert_eq!(bold("a**b"), "ab");
    assert_eq!(bold("**a**b**"), "ab");
    assert_eq!(bold("***"), "*");
    assert_eq!(bold("****"), "");
}

#[test]
fn a_box_with_bold_marks_stays_a_box() {
    assert_eq!(checkbox("- [ ] **later**"), (false, "**later**".to_string()));
}

#[test]
fn toggling_twice_restores_the_line() {
    let once = toggle_line("- [ ] foo");
    assert_eq!(once, "- [x] foo");
    assert_eq!(toggle_line(&once), "- [ ] foo");
}

#[test]
fn toggling_twice_restores_many_lines() {
    for line in ["- [ ] foo", "- [x] foo", "   - [ ]", "\t- [x] a - [ ] b", "- [ ] - [X] - [x]"] {
        assert_eq!(toggle_line(&toggle_line(line)), line);
    }
}

#[test]
fn capital_mark_comes_back_small() {
    assert_eq!(toggle_line("- [X] foo"), "- [ ] foo");
    assert_eq!(toggle_line(&toggle_line("- [X] foo")), "- [x] foo");
}

#[test]
fn toggling_changes_the_leading_mark_only() {
    assert_eq!(toggle_line("- [x] a - [ ] b"), "- [ ] a - [ ] b");
    assert_eq!(toggle_line("- [ ] a - [ ] b"), "- [x] a - [ ] b");
    assert_eq!(toggle_line("  - [X] a - [x] b"), "  - [ ] a - [x] b");
}

#[test]
fn toggling_leaves_other_lines_alone() {
    assert_eq!(toggle_line("plain"), "plain");
    assert_eq!(toggle_line("a - [ ] b"), "a - [ ] b");
    assert_eq!(toggle_line(""), "");
}

#[test]
fn toggling_flips_the_box_and_keeps_the_label() {
    for line in ["- [ ] foo", "- [x] foo", "- [X] foo", "  - [ ]   x y"] {
        let (checked, label) = checkbox(line);
        assert_eq!(checkbox(&toggle_line(line)), (!checked, label));
    }
}

#[test]
fn renders_each_line_by_its_kind() {
    let lines = render("- [ ] one\n**two**\nthree\n\n- [x] five");
    assert_eq!(lines.len(), 5);
    assert!(matches!(&lines[0], Line::Checkbox { checked: false, label } if label == "one"));
    assert!(matches!(&lines[1], Line::Bold { text } if text == "two"));
    assert!(matches!(&lines[2], Line::Plain { text } if text == "three"));
    assert!(matches!(&lines[3], Line::Plain { text } if text.is_empty()));
    assert!(matches!(&lines[4], Line::Checkbox { checked: true, label } if label == "five"));
}

#[test]
fn renders_nothing_for_an_empty_memo() {
    assert!(render("").is_empty());
    assert_eq!(Memo::new(String::new()).line_count(), 1);
    assert_eq!(Memo::new("a\nb\n".to_string()).line_count(), 2);
}

#[test]
fn memo_toggle_rewrites_one_line() {
    let mut memo = Memo::new("title\n- [ ] one\n- [x] two".to_string());
    assert!(memo.toggle(1));
    assert_eq!(memo.text, "title\n- [x] one\n- [x] two");
    assert!(memo.toggle(2));
    assert_eq!(memo.text, "title\n- [x] one\n- [ ] two");
    assert!(!memo.editing);
}

#[test]
fn memo_toggle_refuses_what_is_no_checkbox() {
    let mut memo = Memo::new("title\r\n- [ ] one\n".to_string());
    assert!(!memo.toggle(0));
    assert!(!memo.toggle(2));
    assert_eq!(memo.text, "title\r\n- [ ] one\n");
}

#[test]
fn memo_toggle_joins_lines_with_line_feeds() {
    let mut memo = Memo::new("title\r\n- [ ] one\n".to_string());
    assert!(memo.toggle(1));
    assert_eq!(memo.text, "title\n- [x] one");
}

#[test]
fn a_click_on_a_line_opens_the_editor() {
    let mut memo = Memo::new("a".to_string());
    memo.line_clicked();
    assert!(memo.editing);
    assert_eq!(memo.text, "a");
}

#[test]
fn editor_mirrors_the_buffer_before_any_commit() {
    let mut memo = Memo::new("a".to_string());
    memo.line_clicked();
    memo.edit("ab", &vec![]);
    assert_eq!(memo.text, "ab");
    assert!(memo.editing);
}

#[test]
fn escape_closes_the_editor_and_keeps_the_text() {
    let mut memo = Memo::new("a".to_string());
    memo.line_clicked();
    memo.edit("abc", &vec![press(Key::Other, false), press(Key::Escape, false)]);
    assert_eq!(memo.text, "abc");
    assert!(!memo.editing);
}

#[test]
fn alt_enter_adds_a_line_feed() {
    let mut memo = Memo::new("a".to_string());
    memo.line_clicked();
    let keys = vec![
        press(Key::Enter, true),
        press(Key::Enter, false),
        KeyEvent { key: Key::Enter, pressed: false, alt: true },
        press(Key::Other, true),
        press(Key::Enter, true),
    ];
    memo.edit("ab", &keys);
    assert_eq!(memo.text, "ab\n\n");
    assert!(memo.editing);
}

#[test]
fn a_released_escape_does_not_commit() {
    let mut memo = Memo::new("a".to_string());
    memo.line_clicked();
    memo.edit("ab", &vec![KeyEvent { key: Key::Escape, pressed: false, alt: false }]);
    assert!(memo.editing);
}

#[test]
fn a_closed_editor_takes_nothing() {
    let mut memo = Memo::new("a".to_string());
    memo.edit("zzz", &vec![press(Key::Enter, true)]);
    assert_eq!(memo.text, "a");
    assert!(!memo.editing);
}
