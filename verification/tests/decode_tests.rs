use logtail::entry::LogEntry;

const LINE_A: &str = "INFO 2020-07-08T19:58:26.841778689+01:00 [src/bin/app.rs:114] starting up";

fn chrono_nanos(text: &str) -> i64 {
    chrono::DateTime::parse_from_rfc3339(text)
        .unwrap()
        .timestamp_nanos_opt()
        .unwrap()
}

#[test]
fn decodes_a_primary_grammar_line() {
    let e = LogEntry::decode(LINE_A).expect("line A decodes");
    assert_eq!(e.category, "INFO");
    assert_eq!(e.source, "[src/bin/app.rs:114]");
    assert_eq!(e.message, "starting up");
    assert_eq!(e.logstring, LINE_A);
    assert_eq!(e.time, Some(chrono_nanos("2020-07-08T19:58:26.841778689+01:00")));
}

#[test]
fn round_trip_reconstructs_the_line() {
    let e = LogEntry::decode(LINE_A).expect("line A decodes");
    let time_field = &LINE_A[5..40];
    let rebuilt = format!("{} {} {} {}", e.category, time_field, e.source, e.message);
    assert_eq!(rebuilt, LINE_A);
    assert_eq!(e.time, Some(chrono_nanos(time_field)));
}

#[test]
fn decodes_a_warn_line_with_free_text() {
    let line = "WARN 2020-07-08T19:59:18.540118366+01:00 [src/data_handler/idata_handler.rs:744] 552f45..: Failed to get holders metadata from DB";
    let e = LogEntry::decode(line).expect("warn line decodes");
    assert_eq!(e.category, "WARN");
    assert_eq!(e.source, "[src/data_handler/idata_handler.rs:744]");
    assert_eq!(e.message, "552f45..: Failed to get holders metadata from DB");
}

#[test]
fn source_tag_is_greedy_to_the_last_bracket() {
    let line = "INFO 2020-07-08T19:58:26.841778689+01:00 [a[b]c] tail [x] rest";
    let e = LogEntry::decode(line).expect("line decodes");
    assert_eq!(e.source, "[a[b]c] tail [x]");
    assert_eq!(e.message, "rest");
}

#[test]
fn wrong_category_width_rejects_the_line() {
    let line = "INF 2020-07-08T19:58:26.841778689+01:00 [src/bin/app.rs:114] starting up";
    assert!(LogEntry::decode(line).is_none());
}

#[test]
fn lowercase_category_rejects_the_line() {
    let line = "info 2020-07-08T19:58:26.841778689+01:00 [src/bin/app.rs:114] starting up";
    assert!(LogEntry::decode(line).is_none());
}

#[test]
fn unparseable_timestamp_rejects_the_line() {
    // 35 characters wide, but not a valid date-time.
    let line = "INFO xxxx-07-08T19:58:26.841778689+01:00 [src/bin/app.rs:114] starting up";
    assert!(LogEntry::decode(line).is_none());
}

#[test]
fn missing_bracket_rejects_the_line() {
    let line = "INFO 2020-07-08T19:58:26.841778689+01:00 src/bin/app.rs:114 starting up";
    assert!(LogEntry::decode(line).is_none());
}

#[test]
fn missing_space_after_source_rejects_the_line() {
    let line = "INFO 2020-07-08T19:58:26.841778689+01:00 [src/bin/app.rs:114]";
    assert!(LogEntry::decode(line).is_none());
}

#[test]
fn empty_message_after_source_is_accepted() {
    let line = "INFO 2020-07-08T19:58:26.841778689+01:00 [src/bin/app.rs:114] ";
    let e = LogEntry::decode(line).expect("line decodes");
    assert_eq!(e.message, "");
}

#[test]
fn empty_line_is_rejected() {
    assert!(LogEntry::decode("").is_none());
}

#[test]
fn fallback_marker_line_is_not_primary() {
    assert!(LogEntry::decode("Running safe-vault v0.24.0").is_none());
}

#[test]
fn non_ascii_message_text_is_kept_verbatim() {
    let line = "INFO 2020-07-08T19:58:26.841778689+01:00 [src/bin/app.rs:114] démarrage réussi ✓";
    let e = LogEntry::decode(line).expect("line decodes");
    assert_eq!(e.message, "démarrage réussi ✓");
    assert_eq!(e.source, "[src/bin/app.rs:114]");
}
