use playback_engine::timefmt::format_time;

#[test]
fn zero_formats_as_double_zero() {
    assert_eq!(format_time(0), "00:00");
}

#[test]
fn minutes_and_seconds_are_zero_padded() {
    assert_eq!(format_time(65), "01:05");
    assert_eq!(format_time(9), "00:09");
    assert_eq!(format_time(600), "10:00");
    assert_eq!(format_time(59 * 60 + 59), "59:59");
}

#[test]
fn minute_field_widens_past_an_hour() {
    assert_eq!(format_time(99 * 60 + 59), "99:59");
    assert_eq!(format_time(100 * 60), "100:00");
    assert_eq!(format_time(1234 * 60 + 7), "1234:07");
}
