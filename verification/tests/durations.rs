use statline::relative_duration;

#[test]
fn zero_seconds() {
    assert_eq!(relative_duration(0), "0 seconds");
}

#[test]
fn one_second_is_singular() {
    assert_eq!(relative_duration(1), "1 second");
}

#[test]
fn fifty_nine_seconds_stay_seconds() {
    assert_eq!(relative_duration(59), "59 seconds");
}

#[test]
fn ninety_seconds_become_one_minute() {
    assert_eq!(relative_duration(90), "1 minute");
}

#[test]
fn two_minutes_are_plural() {
    assert_eq!(relative_duration(120), "2 minutes");
}

#[test]
fn hours_days_weeks() {
    assert_eq!(relative_duration(2 * 3600), "2 hours");
    assert_eq!(relative_duration(2 * 86400), "2 days");
    assert_eq!(relative_duration(604800), "1 week");
}

#[test]
fn months_use_flat_thirty_days() {
    assert_eq!(relative_duration(3 * 30 * 86400), "3 months");
}

#[test]
fn years_use_flat_365_days() {
    assert_eq!(relative_duration(31536000), "1 year");
    assert_eq!(relative_duration(2 * 31536000), "2 years");
}

#[test]
fn just_below_a_unit_falls_to_the_smaller_one() {
    assert_eq!(relative_duration(3599), "59 minutes");
    assert_eq!(relative_duration(86399), "23 hours");
}
