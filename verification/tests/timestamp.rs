use mc_update_watcher::timestamp::unix_seconds;

#[test]
fn the_epoch_is_second_zero() {
    assert_eq!(unix_seconds("1970-01-01T00:00:00Z"), Some(0));
}

#[test]
fn a_timestamp_in_utc() {
    assert_eq!(unix_seconds("2024-04-03T12:00:00+00:00"), Some(1712145600));
    assert_eq!(unix_seconds("2015-05-15T00:00:00Z"), Some(1431648000));
}

#[test]
fn an_offset_is_taken_into_account() {
    assert_eq!(unix_seconds("2024-04-03T14:34:56+02:00"), Some(1712147696));
    assert_eq!(unix_seconds("2024-04-03T12:34:56+00:00"), Some(1712147696));
}

#[test]
fn a_fraction_of_a_second_is_dropped() {
    assert_eq!(unix_seconds("2024-04-03T12:00:00.750Z"), Some(1712145600));
}

#[test]
fn an_instant_before_the_epoch_is_negative() {
    assert_eq!(unix_seconds("1969-12-31T23:59:59+00:00"), Some(-1));
}

#[test]
fn what_is_no_date_and_time_has_no_instant() {
    assert_eq!(unix_seconds(""), None);
    assert_eq!(unix_seconds("yesterday"), None);
    assert_eq!(unix_seconds("2024-04-03"), None);
    assert_eq!(unix_seconds("2024-04-03T12:00:00"), None);
    assert_eq!(unix_seconds("2024-13-03T12:00:00Z"), None);
    assert_eq!(unix_seconds("1712145600"), None);
}
