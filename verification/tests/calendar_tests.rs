use filestamp::calendar::days_from_epoch;
use filestamp::calendar::days_in_month;
use filestamp::calendar::epoch_seconds;
use filestamp::calendar::is_leap_year;

#[test]
fn leap_year_rule() {
    assert!(is_leap_year(2024));
    assert!(!is_leap_year(2023));
    assert!(!is_leap_year(1900));
    assert!(is_leap_year(2000));
    assert!(is_leap_year(0));
}

#[test]
fn month_lengths() {
    assert_eq!(days_in_month(2023, 2), 28);
    assert_eq!(days_in_month(2024, 2), 29);
    assert_eq!(days_in_month(2024, 1), 31);
    assert_eq!(days_in_month(2024, 4), 30);
    assert_eq!(days_in_month(2024, 12), 31);
}

#[test]
fn day_numbers_around_the_epoch() {
    assert_eq!(days_from_epoch(1970, 1, 1), 0);
    assert_eq!(days_from_epoch(1970, 1, 2), 1);
    assert_eq!(days_from_epoch(1969, 12, 31), -1);
    assert_eq!(days_from_epoch(2000, 1, 1), 10_957);
    assert_eq!(days_from_epoch(0, 1, 1), -719_528);
    assert_eq!(days_from_epoch(9999, 12, 31), 2_932_896);
}

#[test]
fn seconds_of_a_full_datetime() {
    assert_eq!(epoch_seconds(1970, 1, 1, 0, 0, 0), 0);
    assert_eq!(epoch_seconds(1969, 12, 31, 23, 59, 59), -1);
    assert_eq!(epoch_seconds(2024, 1, 1, 12, 30, 45), 1_704_112_245);
}
