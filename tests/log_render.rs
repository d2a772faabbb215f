use gitlab_ci_log::render::{has_short_digit_runs, render_log, LogContext, LogFilter, Piece};
use gitlab_ci_log::section::{Section, SectionType};
use gitlab_ci_log::status::Style;

fn filter(all: bool, headers: bool, only_headers: bool, name: &str) -> LogFilter {
    LogFilter {
        show_all: all,
        show_headers: headers,
        show_only_headers: only_headers,
        name_substring: name.to_string(),
    }
}

fn lines(v: &[&str]) -> Vec<String> {
    v.iter().map(|s| s.to_string()).collect()
}

fn texts(out: &[Piece]) -> Vec<(Style, String)> {
    out.iter().map(|p| (p.style, p.text.clone())).collect()
}

fn plain(s: &str) -> (Style, String) {
    (Style::Plain, s.to_string())
}

fn warn(s: &str) -> (Style, String) {
    (Style::Warning, s.to_string())
}

fn header(title: &str, name: &str) -> Vec<(Style, String)> {
    vec![
        warn(&format!("\n> {} [", title)),
        (Style::Literal, name.to_string()),
        warn("]"),
        plain(" "),
    ]
}

const OPEN_FOO: &str = "section_start:1000:foo[collapsed=true]\r\u{1b}[0KStep title";
const CLOSE_FOO: &str = "section_end:1200:foo[collapsed=true]\r\u{1b}[0K";

#[test]
fn show_all_reproduces_text_lines_in_order() {
    let log = lines(&[OPEN_FOO, "first line", "second line", CLOSE_FOO]);
    let out = render_log(&log, &filter(true, false, false, "step_script"), false);
    let mut expected = header("Step title", "foo");
    expected.push(plain("\n"));
    expected.push(plain("\n"));
    expected.push(plain("first line"));
    expected.push(plain("\n"));
    expected.push(plain("second line"));
    expected.push(plain("\n"));
    expected.push(plain("\n"));
    assert_eq!(texts(&out), expected);
}

#[test]
fn show_all_colored_writes_raw_lines() {
    let log = lines(&[OPEN_FOO, "\u{1b}[32mgreen\u{1b}[0m text"]);
    let out = render_log(&log, &filter(true, false, false, "step_script"), true);
    let mut expected = header("Step title", "foo");
    expected.push(plain("\n"));
    expected.push(plain("\n"));
    expected.push(plain("\u{1b}[32mgreen\u{1b}[0m text"));
    expected.push(plain("\n"));
    assert_eq!(texts(&out), expected);
}

#[test]
fn plain_mode_drops_escape_sequences() {
    let log = lines(&["\u{1b}[32mgreen\u{1b}[0m text"]);
    let out = render_log(&log, &filter(true, false, false, "step_script"), false);
    assert_eq!(texts(&out), vec![plain("green"), plain(" text"), plain("\n")]);
}

#[test]
fn only_headers_emits_two_annotations_and_no_text() {
    let log = lines(&[OPEN_FOO, "inside text", CLOSE_FOO, "after"]);
    let out = render_log(&log, &filter(false, false, true, "step_script"), false);
    let mut expected = header("Step title", "foo");
    expected.push(warn("< [3:20s]\n"));
    expected.push(plain("\n"));
    assert_eq!(texts(&out), expected);
    assert!(out.iter().all(|p| !p.text.contains("inside")));
}

#[test]
fn collapsed_section_not_matching_is_suppressed() {
    let log = lines(&[OPEN_FOO, "inside text", CLOSE_FOO, "after"]);
    let out = render_log(&log, &filter(false, true, false, "bar"), false);
    let mut expected = header("Step title", "foo");
    expected.push(warn("< [3:20s]\n"));
    expected.push(plain("\n"));
    assert_eq!(texts(&out), expected);
}

#[test]
fn matching_section_text_is_shown() {
    let log = lines(&[
        "section_start:10:step_script\r\u{1b}[0KRun script",
        "echo hello",
        "section_end:15:step_script\r\u{1b}[0K",
        "done",
    ]);
    let out = render_log(&log, &filter(false, false, false, "step_script"), false);
    assert_eq!(
        texts(&out),
        vec![plain("\n"), plain("echo hello"), plain("\n"), plain("\n")]
    );
}

#[test]
fn nested_sections_use_their_own_start() {
    let log = lines(&[
        "section_start:100:a\r\u{1b}[0KOuter",
        "section_start:130:b\r\u{1b}[0KInner",
        "section_end:190:b\r\u{1b}[0Kx",
        "section_end:4000:a\r\u{1b}[0Ky",
    ]);
    let out = render_log(&log, &filter(true, false, false, ""), false);
    let mut expected = header("Outer", "a");
    expected.push(plain("\n"));
    expected.push(plain("\n"));
    expected.extend(header("Inner", "b"));
    expected.push(plain("\n"));
    expected.push(plain("\n"));
    expected.push(warn("< [1:00s]\n"));
    expected.push(plain("\n"));
    expected.push(warn("< [1:05:00s]\n"));
    expected.push(plain("\n"));
    assert_eq!(texts(&out), expected);
}

#[test]
fn close_without_open_is_a_no_op() {
    let log = lines(&["section_end:5:z\r\u{1b}[0Kx", "text"]);
    let out = render_log(&log, &filter(false, true, false, "z"), false);
    assert_eq!(texts(&out), vec![plain("\n"), plain("text"), plain("\n")]);
}

#[test]
fn show_line_rules() {
    let mut ctx = LogContext::new();
    assert!(ctx.show_line(&filter(true, false, false, "x")));
    assert!(ctx.show_line(&filter(false, true, false, "x")));
    assert!(!ctx.show_line(&filter(false, false, false, "x")));
    ctx.sections.push(Section::parse("section_start:1:prepare[collapsed=true]").unwrap());
    assert!(!ctx.show_line(&filter(false, true, false, "script")));
    assert!(ctx.show_line(&filter(false, true, false, "prep")));
    assert!(!ctx.show_line(&filter(false, false, true, "prep")));
    ctx.sections.push(Section::parse("section_start:2:inner").unwrap());
    assert!(!ctx.show_line(&filter(false, false, false, "inn")));
    assert!(ctx.show_line(&filter(false, false, false, "p")));
}

#[test]
fn section_parse_start_with_flags() {
    let s = Section::parse("section_start:1000:foo[collapsed=true]\r").unwrap();
    assert_eq!(s.kind, SectionType::Start);
    assert_eq!(s.timestamp, 1000);
    assert_eq!(s.name, "foo");
    assert!(s.collapsed);
}

#[test]
fn section_parse_end_without_flags() {
    let s = Section::parse("section_end:-7:build").unwrap();
    assert_eq!(s.kind, SectionType::End);
    assert_eq!(s.timestamp, -7);
    assert_eq!(s.name, "build");
    assert!(!s.collapsed);
}

#[test]
fn section_parse_other_flags() {
    let s = Section::parse("section_start:+5:x[collapsed=false]").unwrap();
    assert_eq!(s.timestamp, 5);
    assert_eq!(s.name, "x");
    assert!(!s.collapsed);
    let s = Section::parse("section_start:5:a]b[c").unwrap();
    assert_eq!(s.name, "a]b[c");
    assert!(!s.collapsed);
}

#[test]
fn section_parse_malformed_is_text() {
    assert!(Section::parse("section_start:123").is_none());
    assert!(Section::parse("section_start:abc:foo").is_none());
    assert!(Section::parse("section_start::foo").is_none());
    assert!(Section::parse("section_start:99999999999999999999:foo").is_none());
    assert!(Section::parse("hello section_start:1:foo").is_none());
    assert!(Section::parse("").is_none());
    assert_eq!(
        Section::parse("section_start:-9223372036854775808:m").unwrap().timestamp,
        i64::MIN
    );
}

#[test]
fn digit_run_bound() {
    assert!(has_short_digit_runs(""));
    assert!(has_short_digit_runs("1234567890123"));
    assert!(has_short_digit_runs("a1234567890123b1234567890123"));
    assert!(!has_short_digit_runs("12345678901234"));
    assert!(!has_short_digit_runs("x;12345678901234;y"));
}

#[test]
fn overlong_colour_numbers_stay_one_segment() {
    let line = "\u{1b}[38;2;281474976710655;256;0mX";
    let out = render_log(&lines(&[line]), &filter(true, false, false, "step_script"), false);
    assert_eq!(texts(&out), vec![plain(line), plain("\n")]);
}

#[test]
fn show_all_colored_round_trip() {
    let log = lines(&[OPEN_FOO, "first line", "section_end:1200:foo\r\u{1b}[0Kafter"]);
    let out = render_log(&log, &filter(true, false, false, "step_script"), true);
    let mut expected = header("Step title", "foo");
    expected.push(plain("\n"));
    expected.push(plain("\n"));
    expected.push(plain("first line"));
    expected.push(plain("\n"));
    expected.push(warn("< [3:20s]\n"));
    assert_eq!(texts(&out), expected);
}

#[test]
fn nested_sections_with_headers_then_top_level_text() {
    let log = lines(&[
        "section_start:100:a\r\u{1b}[0KOuter",
        "section_start:130:b\r\u{1b}[0KInner",
        "section_end:190:b\r\u{1b}[0Kx",
        "section_end:4000:a\r\u{1b}[0Ky",
        "top",
    ]);
    let out = render_log(&log, &filter(false, true, false, "zzz"), false);
    let mut expected = header("Outer", "a");
    expected.extend(header("Inner", "b"));
    expected.push(warn("< [1:00s]\n"));
    expected.push(warn("< [1:05:00s]\n"));
    expected.push(plain("\n"));
    expected.push(plain("top"));
    expected.push(plain("\n"));
    assert_eq!(texts(&out), expected);
}
