use whatsapp_desktop::report::{
    report_body, report_mailto, report_subject, tail, LOG_FILE_NAME, MAX_LOG_CHARS_IN_REPORT,
    REPORT_EMAIL,
};

#[test]
fn tail_keeps_whole_log_when_under_the_limit() {
    let (result, truncated) = tail("short log", 4000);
    assert_eq!(result, "short log");
    assert!(!truncated);
}

#[test]
fn tail_keeps_only_the_most_recent_chars_when_over_the_limit() {
    let log = "0123456789";
    let (result, truncated) = tail(log, 4);
    assert_eq!(result, "6789");
    assert!(truncated);
}

#[test]
fn report_body_notes_missing_log_file() {
    let body = report_body("it crashed", "");
    assert!(body.starts_with("it crashed"));
    assert!(body.contains("(no log file found)"));
}

#[test]
fn report_body_flags_truncation() {
    let log = "x".repeat(MAX_LOG_CHARS_IN_REPORT + 1);
    let body = report_body("desc", &log);
    assert!(body.contains("(most recent lines only)"));
}

#[test]
fn tail_at_exactly_the_limit_is_not_truncated() {
    let (result, truncated) = tail("abcd", 4);
    assert_eq!(result, "abcd");
    assert!(!truncated);
}

#[test]
fn tail_counts_characters_not_bytes() {
    let (result, truncated) = tail("héllo wörld", 5);
    assert_eq!(result, "wörld");
    assert!(truncated);
}

#[test]
fn tail_with_zero_limit_is_empty() {
    let (result, truncated) = tail("abc", 0);
    assert_eq!(result, "");
    assert!(truncated);
    let (result, truncated) = tail("", 0);
    assert_eq!(result, "");
    assert!(!truncated);
}

#[test]
fn report_body_exact_text_with_short_log() {
    let body = report_body("  it crashed \n", "line 1\nline 2");
    assert_eq!(body, "it crashed\n\n--- Application log ---\nline 1\nline 2");
}

#[test]
fn report_body_exact_text_without_log() {
    let body = report_body("\u{3000}desc\u{2003}", "");
    assert_eq!(body, "desc\n\n--- Application log ---\n(no log file found)");
}

#[test]
fn report_body_keeps_only_the_last_chars_of_a_long_log() {
    let mut log = String::from("a");
    log.push_str(&"b".repeat(MAX_LOG_CHARS_IN_REPORT));
    let body = report_body("desc", &log);
    let expected = format!(
        "desc\n\n--- Application log (most recent lines only) ---\n{}",
        "b".repeat(MAX_LOG_CHARS_IN_REPORT)
    );
    assert_eq!(body, expected);
}

#[test]
fn report_body_of_blank_description() {
    let body = report_body(" \t\n ", "log");
    assert_eq!(body, "\n\n--- Application log ---\nlog");
}

#[test]
fn report_subject_names_the_version() {
    assert_eq!(report_subject("1.2.3"), "WhatsApp Desktop v1.2.3 - Issue Report");
}

#[test]
fn report_mailto_encodes_subject_and_body() {
    let url = report_mailto("hi & bye", "", "1.0");
    assert_eq!(
        url,
        "mailto:whatsapp-desktop@guita.org?subject=WhatsApp%20Desktop%20v1%2E0%20%2D%20Issue%20Report&body=hi%20%26%20bye%0A%0A%2D%2D%2D%20Application%20log%20%2D%2D%2D%0A%28no%20log%20file%20found%29"
    );
}

#[test]
fn report_mailto_encodes_non_ascii_as_utf8_bytes() {
    let url = report_mailto("é", "x", "1");
    assert!(url.ends_with("&body=%C3%A9%0A%0A%2D%2D%2D%20Application%20log%20%2D%2D%2D%0Ax"));
}

#[test]
fn report_constants() {
    assert_eq!(LOG_FILE_NAME, "whatsapp-desktop");
    assert_eq!(REPORT_EMAIL, "whatsapp-desktop@guita.org");
    assert_eq!(MAX_LOG_CHARS_IN_REPORT, 4000);
}
