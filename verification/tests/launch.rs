use task_timer::launch::{normalize_breaks, parse_minutes, Launch};
use task_timer::memo::render;

fn args(list: &[&str]) -> Vec<String> {
    list.iter().map(|s| s.to_string()).collect()
}

#[test]
fn break_tags_become_three_lines() {
    let text = normalize_breaks("line1<br/>line2<br>line3");
    assert_eq!(text, "line1\nline2\nline3");
    assert_eq!(render(&text).len(), 3);
}

#[test]
fn break_tags_are_matched_exactly() {
    assert_eq!(normalize_breaks("a<BR>b<br />c"), "a<BR>b<br />c");
    assert_eq!(normalize_breaks("<br><br/>"), "\n\n");
    assert_eq!(normalize_breaks("<<br/>br>"), "<\nbr>");
    assert_eq!(normalize_breaks(""), "");
}

#[test]
fn minutes_are_plain_numbers() {
    assert_eq!(parse_minutes("5"), Some(5));
    assert_eq!(parse_minutes("0"), Some(0));
    assert_eq!(parse_minutes("+15"), Some(15));
    assert_eq!(parse_minutes("007"), Some(7));
    assert_eq!(parse_minutes("18446744073709551615"), Some(u64::MAX));
}

#[test]
fn anything_else_gives_no_minutes() {
    for s in ["", "+", "-1", " 5", "5 ", "5m", "1.5", "１", "++1", "18446744073709551616", "99999999999999999999999"] {
        assert_eq!(parse_minutes(s), None, "{:?}", s);
    }
}

#[test]
fn minutes_are_read_like_the_standard_library() {
    for s in ["", "+", "+0", "12", "-0", "18446744073709551615", "18446744073709551616", "1e3", "0x10"] {
        assert_eq!(parse_minutes(s), s.parse::<u64>().ok(), "{:?}", s);
    }
}

#[test]
fn launch_without_arguments_uses_the_placeholders() {
    let launch = Launch::from_args(&args(&["timer"]));
    assert_eq!(launch.name, "作業");
    assert_eq!(launch.memo, "**メモを編集**");
    assert_eq!(launch.end_minutes, None);
    let none = Launch::from_args(&args(&[]));
    assert_eq!(none.name, "作業");
}

#[test]
fn launch_reads_its_three_arguments() {
    let launch = Launch::from_args(&args(&["timer", "report", "- [ ] a<br>- [ ] b", "25", "more"]));
    assert_eq!(launch.name, "report");
    assert_eq!(launch.memo, "- [ ] a\n- [ ] b");
    assert_eq!(launch.end_minutes, Some(25));
}

#[test]
fn launch_with_bad_minutes_is_a_stopwatch() {
    let launch = Launch::from_args(&args(&["timer", "report", "memo", "soon"]));
    assert_eq!(launch.end_minutes, None);
    assert_eq!(launch.memo, "memo");
}
