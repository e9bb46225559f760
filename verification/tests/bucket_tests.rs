use logtail::bucket::BucketSet;
use logtail::timeline::{Granularity, TimelineSet, NANOS_PER_MINUTE};

const SEC: i64 = 1_000_000_000;

#[test]
fn bucket_set_starts_with_one_zero_bucket() {
    let bs = BucketSet::new(NANOS_PER_MINUTE, 5);
    assert_eq!(bs.buckets(), &vec![0u64]);
    assert!(bs.bucket_time.is_none());
    assert_eq!(bs.bucket_duration, NANOS_PER_MINUTE);
    assert_eq!(bs.max_buckets, 5);
    assert_eq!(bs.total_duration, (NANOS_PER_MINUTE as i128) * 5);
}

#[test]
fn first_advance_only_anchors() {
    let mut bs = BucketSet::new(NANOS_PER_MINUTE, 5);
    bs.advance_to(0);
    assert_eq!(bs.bucket_time, Some(0));
    assert_eq!(bs.buckets().len(), 1);
}

#[test]
fn events_sixty_one_seconds_apart() {
    // One-minute buckets, at most five: the second event crosses one
    // boundary and yields exactly two buckets; the oldest bucket leaves
    // once a sixth boundary is crossed.
    let mut bs = BucketSet::new(NANOS_PER_MINUTE, 5);
    bs.advance_to(0);
    bs.set_bucket_value(10);
    bs.advance_to(61 * SEC);
    assert_eq!(bs.buckets().len(), 2);
    assert_eq!(bs.buckets()[0], 10);
    bs.advance_to(122 * SEC);
    bs.advance_to(183 * SEC);
    bs.advance_to(244 * SEC);
    assert_eq!(bs.buckets().len(), 5);
    assert_eq!(bs.buckets()[0], 10);
    bs.advance_to(305 * SEC);
    // Sixth boundary crossed: still five buckets, the first one evicted.
    assert_eq!(bs.buckets().len(), 5);
    assert_eq!(bs.buckets()[0], 0);
}

#[test]
fn large_gap_fills_with_empty_buckets_up_to_bound() {
    let mut bs = BucketSet::new(NANOS_PER_MINUTE, 5);
    bs.advance_to(0);
    bs.set_bucket_value(7);
    // A gap of one hour produces many boundaries; the window keeps only
    // the newest five buckets.
    bs.advance_to(3600 * SEC);
    assert_eq!(bs.buckets().len(), 5);
    assert!(bs.buckets().iter().all(|&v| v == 0));
    assert_eq!(bs.bucket_time, Some(3600 * SEC));
}

#[test]
fn backward_time_changes_nothing() {
    let mut bs = BucketSet::new(NANOS_PER_MINUTE, 5);
    bs.advance_to(120 * SEC);
    bs.increment_value();
    let before = bs.buckets().clone();
    let anchor = bs.bucket_time;
    bs.advance_to(0);
    assert_eq!(bs.buckets(), &before);
    assert_eq!(bs.bucket_time, anchor);
    bs.advance_to(120 * SEC);
    assert_eq!(bs.buckets(), &before);
    assert_eq!(bs.bucket_time, anchor);
}

#[test]
fn increment_and_set_touch_only_the_last_bucket() {
    let mut bs = BucketSet::new(NANOS_PER_MINUTE, 3);
    bs.advance_to(0);
    bs.increment_value();
    bs.increment_value();
    assert_eq!(bs.buckets(), &vec![2u64]);
    bs.advance_to(61 * SEC);
    bs.increment_value();
    assert_eq!(bs.buckets(), &vec![2u64, 1u64]);
    bs.set_bucket_value(9);
    assert_eq!(bs.buckets(), &vec![2u64, 9u64]);
}

#[test]
fn timeline_advances_and_increments_all_granularities() {
    let mut tl = TimelineSet::new(String::from("GETS"));
    assert_eq!(tl.get_name(), "GETS");
    tl.add_bucket_set(Granularity::Minute, NANOS_PER_MINUTE, 3);
    tl.add_bucket_set(Granularity::Hour, 60 * NANOS_PER_MINUTE, 3);
    tl.update_current_time(Some(0));
    tl.increment_value();
    tl.update_current_time(Some(61 * SEC));
    tl.increment_value();
    // The minute set crossed a boundary, the hour set did not.
    let minute = tl.get_bucket_set(Granularity::Minute).unwrap();
    assert_eq!(minute.buckets(), &vec![1u64, 1u64]);
    let hour = tl.get_bucket_set(Granularity::Hour).unwrap();
    assert_eq!(hour.buckets(), &vec![2u64]);
    assert!(tl.get_bucket_set(Granularity::Year).is_none());
}

#[test]
fn timeline_advance_twice_to_same_time_is_idempotent() {
    let mut tl = TimelineSet::new(String::from("PUTS"));
    tl.add_bucket_set(Granularity::Minute, NANOS_PER_MINUTE, 3);
    tl.update_current_time(Some(0));
    tl.update_current_time(Some(90 * SEC));
    let snapshot = tl.get_bucket_set(Granularity::Minute).unwrap().buckets().clone();
    let anchor = tl.get_bucket_set(Granularity::Minute).unwrap().bucket_time;
    tl.update_current_time(Some(90 * SEC));
    let bs = tl.get_bucket_set(Granularity::Minute).unwrap();
    assert_eq!(bs.buckets(), &snapshot);
    assert_eq!(bs.bucket_time, anchor);
}
