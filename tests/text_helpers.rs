use gitlab_ci_log::text::{digits, format_duration, str_contains, str_eq};

#[test]
fn format_duration_seconds_minutes_hours() {
    assert_eq!(format_duration(0), "0s");
    assert_eq!(format_duration(59), "59s");
    assert_eq!(format_duration(60), "1:00s");
    assert_eq!(format_duration(200), "3:20s");
    assert_eq!(format_duration(3600), "1:00:00s");
    assert_eq!(format_duration(3725), "1:02:05s");
    assert_eq!(format_duration(360000), "100:00:00s");
}

#[test]
fn format_duration_negative() {
    assert_eq!(format_duration(-5), "-5s");
    assert_eq!(format_duration(-200), "-3:-20s");
    assert_eq!(format_duration(-3725), "-1:-2:-5s");
    assert_eq!(format_duration(i64::MIN), format!("{}:{:02}:{:02}s", i64::MIN / 3600, (i64::MIN / 60) % 60, i64::MIN % 60));
}

#[test]
fn string_helpers() {
    assert_eq!(digits(0), "0");
    assert_eq!(digits(u64::MAX), u64::MAX.to_string());
    assert!(str_eq("abc", "abc"));
    assert!(!str_eq("abc", "abd"));
    assert!(str_contains("step_script", "script"));
    assert!(str_contains("abc", ""));
    assert!(!str_contains("ab", "abc"));
}
