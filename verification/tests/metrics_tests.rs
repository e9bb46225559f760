use logtail::metrics::{VaultAgebracket, VaultMetrics};
use logtail::timeline::Granularity;

const TS: &str = "2020-07-08T19:58:26.841778689+01:00";

fn line_with(message: &str) -> String {
    format!("INFO {} [src/bin/app.rs:114] {}", TS, message)
}

fn chrono_nanos(text: &str) -> i64 {
    chrono::DateTime::parse_from_rfc3339(text)
        .unwrap()
        .timestamp_nanos_opt()
        .unwrap()
}

#[test]
fn fresh_store_has_standard_timelines_and_zeroed_state() {
    let m = VaultMetrics::new(10);
    assert_eq!(m.gets_timeline.get_name(), "GETS");
    assert_eq!(m.puts_timeline.get_name(), "PUTS");
    assert_eq!(m.errors_timeline.get_name(), "ERRORS");
    for g in [
        Granularity::Minute,
        Granularity::Hour,
        Granularity::Day,
        Granularity::TwelfthYear,
        Granularity::Year,
    ] {
        let bs = m.gets_timeline.get_bucket_set(g).expect("granularity present");
        assert_eq!(bs.buckets(), &vec![0u64]);
        assert_eq!(bs.max_buckets, 10);
    }
    assert_eq!(m.activity_gets, 0);
    assert!(matches!(m.agebracket, VaultAgebracket::Infant));
    assert_eq!(m.agebracket_string(), "Infant");
}

#[test]
fn start_marker_line_captures_version_and_resets() {
    let mut m = VaultMetrics::new(10);
    // Establish some state first.
    m.gather_metrics(&line_with("No. of Elders: 7"));
    m.gather_metrics(&line_with(
        "Responded to our data handlers with: Response { response: Response::GetSuccess, more",
    ));
    assert_eq!(m.elders, 7);
    assert_eq!(m.activity_gets, 1);
    // The start marker decodes via the fallback and resets counters and
    // lifecycle state, but not the timelines or histories.
    m.gather_metrics("Running safe-vault v0.24.0");
    assert_eq!(m.running_version.as_deref(), Some("v0.24.0"));
    assert_eq!(m.running_message.as_deref(), Some("Running safe-vault v0.24.0"));
    assert_eq!(m.elders, 0);
    assert_eq!(m.adults, 0);
    assert_eq!(m.activity_gets, 0);
    assert!(matches!(m.agebracket, VaultAgebracket::Infant));
    let last = m.log_history.last().expect("start line recorded");
    assert_eq!(last.category, "START");
    assert_eq!(last.message, "Running safe-vault v0.24.0");
    assert_eq!(last.time, Some(chrono_nanos(TS)));
    assert_eq!(m.vault_started, Some(chrono_nanos(TS)));
    // Histories persist across the reset.
    assert_eq!(m.log_history.len(), 3);
    assert_eq!(m.activity_history.len(), 1);
}

#[test]
fn get_response_increments_counter_and_every_granularity() {
    let mut m = VaultMetrics::new(10);
    m.gather_metrics(&line_with(
        "Responded to our data handlers with: Response { response: Response::GetSuccess, msg: ..",
    ));
    assert_eq!(m.activity_gets, 1);
    assert_eq!(m.activity_puts, 0);
    assert_eq!(m.activity_other, 0);
    for g in [
        Granularity::Minute,
        Granularity::Hour,
        Granularity::Day,
        Granularity::TwelfthYear,
        Granularity::Year,
    ] {
        let bs = m.gets_timeline.get_bucket_set(g).expect("granularity present");
        assert_eq!(*bs.buckets().last().unwrap(), 1, "gets bucket at {:?}", g);
        let ps = m.puts_timeline.get_bucket_set(g).expect("granularity present");
        assert_eq!(*ps.buckets().last().unwrap(), 0, "puts bucket at {:?}", g);
    }
    let act = m.activity_history.last().expect("activity recorded");
    assert_eq!(act.activity, "GetSuccess");
    assert_eq!(act.category, "INFO");
}

#[test]
fn mutation_response_counts_as_put() {
    let mut m = VaultMetrics::new(10);
    m.gather_metrics(&line_with(
        "Responded to our data handlers with: Response { response: Response::Mutation, msg",
    ));
    assert_eq!(m.activity_puts, 1);
    assert_eq!(m.activity_gets, 0);
    let bs = m.puts_timeline.get_bucket_set(Granularity::Minute).unwrap();
    assert_eq!(*bs.buckets().last().unwrap(), 1);
}

#[test]
fn unrecognized_response_counts_as_other_only() {
    let mut m = VaultMetrics::new(10);
    m.gather_metrics(&line_with(
        "Responded to our data handlers with: Response { response: Response::Transfer, msg",
    ));
    assert_eq!(m.activity_other, 1);
    assert_eq!(m.activity_gets, 0);
    assert_eq!(m.activity_puts, 0);
    // Not routed to any timeline.
    let bs = m.gets_timeline.get_bucket_set(Granularity::Minute).unwrap();
    assert_eq!(*bs.buckets().last().unwrap(), 0);
    let ps = m.puts_timeline.get_bucket_set(Granularity::Minute).unwrap();
    assert_eq!(*ps.buckets().last().unwrap(), 0);
}

#[test]
fn empty_response_label_updates_nothing() {
    let mut m = VaultMetrics::new(10);
    m.gather_metrics(&line_with(
        "Responded to our data handlers with: Response { response: Response::, msg",
    ));
    assert_eq!(m.activity_gets, 0);
    assert_eq!(m.activity_puts, 0);
    assert_eq!(m.activity_other, 0);
    assert!(m.activity_history.is_empty());
    assert!(m.parser_output.starts_with("failed to parse_data_response:"));
}

#[test]
fn elder_count_line_sets_elders_only() {
    let mut m = VaultMetrics::new(10);
    m.gather_metrics(&line_with("No. of Adults: 3"));
    assert_eq!(m.adults, 3);
    m.gather_metrics(&line_with("No. of Elders: 7"));
    assert_eq!(m.elders, 7);
    assert_eq!(m.adults, 3);
    assert!(matches!(m.agebracket, VaultAgebracket::Infant));
}

#[test]
fn malformed_count_keeps_the_prior_value() {
    let mut m = VaultMetrics::new(10);
    m.gather_metrics(&line_with("No. of Elders: 7"));
    m.gather_metrics(&line_with("No. of Elders: seven"));
    assert_eq!(m.elders, 7);
    assert!(m.parser_output.starts_with("failed to parse usize from:"));
    m.gather_metrics(&line_with("No. of Elders: 99999999999999999999999999"));
    assert_eq!(m.elders, 7);
}

#[test]
fn promotion_line_sets_the_age_bracket() {
    let mut m = VaultMetrics::new(10);
    m.gather_metrics(&line_with("Vault promoted to Elder"));
    assert!(matches!(m.agebracket, VaultAgebracket::Elder));
    assert_eq!(m.agebracket_string(), "Elder");
    m.gather_metrics(&line_with("Initializing new Vault as Adult"));
    assert!(matches!(m.agebracket, VaultAgebracket::Adult));
    m.gather_metrics(&line_with("Vault promoted to Overlord"));
    assert!(matches!(m.agebracket, VaultAgebracket::Unknown));
    assert_eq!(m.agebracket_string(), "Unknown");
}

#[test]
fn unrecognizable_line_only_records_a_diagnostic() {
    let mut m = VaultMetrics::new(10);
    m.gather_metrics("some noise the grammar does not know");
    assert!(m.log_history.is_empty());
    assert_eq!(m.most_recent, None);
    assert_eq!(
        m.parser_output,
        "LogEntry::decode() failed on: some noise the grammar does not know"
    );
}

#[test]
fn missing_timestamp_is_backfilled_from_most_recent() {
    let mut m = VaultMetrics::new(10);
    m.gather_metrics(&line_with("starting up"));
    assert_eq!(m.most_recent, Some(chrono_nanos(TS)));
    // The fallback line carries no time of its own.
    m.gather_metrics("Running safe-vault v0.24.0");
    let last = m.log_history.last().unwrap();
    assert_eq!(last.time, Some(chrono_nanos(TS)));
    assert_eq!(m.most_recent, Some(chrono_nanos(TS)));
}

#[test]
fn advancing_to_the_same_timestamp_twice_adds_no_buckets() {
    let mut m = VaultMetrics::new(10);
    m.gather_metrics(&line_with("first"));
    let len_before = m
        .gets_timeline
        .get_bucket_set(Granularity::Minute)
        .unwrap()
        .buckets()
        .len();
    m.gather_metrics(&line_with("second, same timestamp"));
    let bs = m.gets_timeline.get_bucket_set(Granularity::Minute).unwrap();
    assert_eq!(bs.buckets().len(), len_before);
    assert_eq!(*bs.buckets(), vec![0u64]);
}

#[test]
fn later_timestamps_rotate_the_minute_buckets() {
    let mut m = VaultMetrics::new(10);
    let l1 = format!("INFO 2020-07-08T19:58:26.000000000+01:00 [src/a.rs:1] one");
    let l2 = format!("INFO 2020-07-08T19:59:27.000000000+01:00 [src/a.rs:1] two");
    m.gather_metrics(&l1);
    m.gather_metrics(&l2);
    let bs = m.gets_timeline.get_bucket_set(Granularity::Minute).unwrap();
    assert_eq!(bs.buckets().len(), 2);
    let ys = m.gets_timeline.get_bucket_set(Granularity::Year).unwrap();
    assert_eq!(ys.buckets().len(), 1);
}

#[test]
fn category_occurrences_are_counted_once_per_key() {
    let mut m = VaultMetrics::new(10);
    let a = logtail::entry::LogEntry::decode(&line_with("one")).unwrap();
    let b = logtail::entry::LogEntry::decode(&line_with("two")).unwrap();
    m.parse_logentry_counts(&a);
    m.parse_logentry_counts(&b);
    assert_eq!(m.category_count.len(), 1);
    assert_eq!(m.category_count[0].0, "INFO");
    assert_eq!(m.category_count[0].1, 2);
}

#[test]
fn parse_start_requires_the_exact_prefix() {
    let mut m = VaultMetrics::new(10);
    assert!(m.parse_start("Running something-else v1").is_none());
    let e = m.parse_start("Running safe-vault v0.24.0").unwrap();
    assert_eq!(e.category, "START");
    assert_eq!(e.source, "");
    assert_eq!(m.running_version.as_deref(), Some("v0.24.0"));
}

#[test]
fn activity_priority_wins_over_state_patterns() {
    // A line holding both the response marker and a state pattern is
    // consumed by activity extraction alone.
    let mut m = VaultMetrics::new(10);
    m.gather_metrics(&line_with(
        "Responded to our data handlers with: Response { response: Response::GetHit, No. of Elders: 9",
    ));
    assert_eq!(m.activity_gets, 1);
    assert_eq!(m.elders, 0);
}

#[test]
fn count_at_the_u64_boundary_is_accepted() {
    let mut m = VaultMetrics::new(10);
    m.gather_metrics(&line_with("No. of Elders: 18446744073709551615"));
    assert_eq!(m.elders, u64::MAX);
    m.gather_metrics(&line_with("No. of Elders: 18446744073709551616"));
    assert_eq!(m.elders, u64::MAX);
}

#[test]
fn elder_count_with_leading_zeros_parses() {
    let mut m = VaultMetrics::new(10);
    m.gather_metrics(&line_with("No. of Elders: 007"));
    assert_eq!(m.elders, 7);
}
