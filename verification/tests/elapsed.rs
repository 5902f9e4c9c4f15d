use mc_update_watcher::elapsed::{elapsed_phrase, hours_between};

#[test]
fn release_one_hour_before_now_reads_one_hour_ago() {
    let now = 1712145600;
    let hours = hours_between(now, now - 3600);
    assert_eq!(hours, 1);
    assert_eq!(elapsed_phrase(hours), "1 hour ago");
}

#[test]
fn release_two_hours_before_now_reads_two_hours_ago() {
    let now = 1712145600;
    let hours = hours_between(now, now - 7200);
    assert_eq!(hours, 2);
    assert_eq!(elapsed_phrase(hours), "2 hours ago");
}

#[test]
fn release_in_the_same_hour_reads_zero_hour_ago() {
    let now = 1712145600;
    let hours = hours_between(now, now);
    assert_eq!(hours, 0);
    assert_eq!(elapsed_phrase(hours), "0 hour ago");
}

#[test]
fn a_started_hour_does_not_count() {
    assert_eq!(hours_between(3599, 0), 0);
    assert_eq!(hours_between(3600, 0), 1);
    assert_eq!(hours_between(7199, 0), 1);
    assert_eq!(hours_between(86400, 0), 24);
}

#[test]
fn a_release_after_now_counts_toward_zero() {
    assert_eq!(hours_between(0, 3599), 0);
    assert_eq!(hours_between(0, 3600), -1);
    assert_eq!(hours_between(0, 7199), -1);
    assert_eq!(hours_between(0, 7200), -2);
}

#[test]
fn the_widest_spans_are_counted_without_overflow() {
    assert_eq!(hours_between(i64::MAX, i64::MIN), 5124095576030431);
    assert_eq!(hours_between(i64::MIN, i64::MAX), -5124095576030431);
    assert_eq!(hours_between(i64::MAX, 0), 2562047788015215);
}

#[test]
fn every_count_but_zero_and_one_is_plural() {
    assert_eq!(elapsed_phrase(-1), "-1 hours ago");
    assert_eq!(elapsed_phrase(-2), "-2 hours ago");
    assert_eq!(elapsed_phrase(10), "10 hours ago");
    assert_eq!(elapsed_phrase(11), "11 hours ago");
    assert_eq!(elapsed_phrase(100), "100 hours ago");
    assert_eq!(elapsed_phrase(8760), "8760 hours ago");
}
