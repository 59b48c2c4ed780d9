use modbus_server::time::{format_time, get_time};

#[test]
fn formats_midnight() {
    assert_eq!(format_time(0), "[00:00:00]");
    assert_eq!(format_time(86400), "[00:00:00]");
}

#[test]
fn formats_the_last_second_of_a_day() {
    assert_eq!(format_time(86399), "[23:59:59]");
}

#[test]
fn formats_single_digits_with_a_leading_zero() {
    assert_eq!(format_time(3661), "[01:01:01]");
    assert_eq!(format_time(9 * 3600 + 9 * 60 + 9), "[09:09:09]");
}

#[test]
fn formats_a_recent_time() {
    assert_eq!(format_time(1793226896), "[22:34:56]");
}

#[test]
fn formats_the_largest_count() {
    assert_eq!(format_time(u64::MAX), "[07:00:15]");
}

#[test]
fn formats_each_unit_apart() {
    assert_eq!(format_time(59), "[00:00:59]");
    assert_eq!(format_time(60), "[00:01:00]");
    assert_eq!(format_time(3599), "[00:59:59]");
    assert_eq!(format_time(3600), "[01:00:00]");
    assert_eq!(format_time(12 * 3600 + 34 * 60 + 56), "[12:34:56]");
}

#[test]
fn the_clock_gives_a_well_formed_stamp() {
    let stamp = get_time().expect("the clock reads a time after the epoch");
    let bytes = stamp.as_bytes();
    assert_eq!(bytes.len(), 10);
    assert_eq!(bytes[0], b'[');
    assert_eq!(bytes[3], b':');
    assert_eq!(bytes[6], b':');
    assert_eq!(bytes[9], b']');
    for i in [1usize, 2, 4, 5, 7, 8] {
        assert!(bytes[i].is_ascii_digit());
    }
    let hours = (bytes[1] - b'0') * 10 + (bytes[2] - b'0');
    let minutes = (bytes[4] - b'0') * 10 + (bytes[5] - b'0');
    let seconds = (bytes[7] - b'0') * 10 + (bytes[8] - b'0');
    assert!(hours < 24 && minutes < 60 && seconds < 60);
}
