use daily_server::date::{date_text_at, get_date, get_date_epoch, is_date_iso8601};

#[test]
fn valid_function_is_valid() {
    assert!(is_date_iso8601("2026-08-12".to_string()));
    assert!(!is_date_iso8601("2026-0a-12".to_string()));
    assert!(!is_date_iso8601("2026-08--12".to_string()));
    assert!(!is_date_iso8601("2026/08/12".to_string()));
    assert!(!is_date_iso8601("2026-8-12".to_string()));
    assert!(!is_date_iso8601("26-08-12".to_string()));
}

#[test]
fn make_sure_valid() {
    assert!(is_date_iso8601(get_date().unwrap()));
}

#[test]
fn make_sure_epoch_valid() {
    assert!(is_date_iso8601(get_date_epoch()));
}

#[test]
fn epoch_date_is_first_of_january_1970() {
    assert_eq!(get_date_epoch(), "1970-01-01");
}

#[test]
fn date_check_needs_dash_at_position_seven() {
    assert!(!is_date_iso8601("2026-08x12".to_string()));
    assert!(!is_date_iso8601("2026x08-12".to_string()));
    assert!(is_date_iso8601("0000-00-00".to_string()));
}

#[test]
fn date_check_rejects_other_lengths_and_non_ascii() {
    assert!(!is_date_iso8601(String::new()));
    assert!(!is_date_iso8601("2026-08-123".to_string()));
    assert!(!is_date_iso8601("2026-08-1".to_string()));
    assert!(!is_date_iso8601("２026-08-12".to_string()));
}

#[test]
fn current_date_has_today_shape() {
    let today = get_date().unwrap();
    assert_eq!(today.len(), 10);
    assert!(today.starts_with("20"));
}

#[test]
fn date_of_a_timestamp() {
    assert_eq!(date_text_at(0, 0), Some("1970-01-01".to_string()));
    assert_eq!(date_text_at(1431648000, 0), Some("2015-05-15".to_string()));
    assert_eq!(date_text_at(86399, 999_999_999), Some("1970-01-01".to_string()));
    assert_eq!(date_text_at(253402300799, 0), Some("9999-12-31".to_string()));
    assert_eq!(date_text_at(253402300800, 0), Some("+10000-01-01".to_string()));
    assert_eq!(date_text_at(u64::MAX, 0), None);
    assert_eq!(date_text_at(1 << 62, 0), None);
}

#[test]
fn timestamps_before_year_10000_pass_the_date_check() {
    for secs in [0u64, 1_780_000_000, 4_102_444_800, 253_402_300_799] {
        assert!(is_date_iso8601(date_text_at(secs, 999_999_999).unwrap()));
    }
    assert!(!is_date_iso8601(date_text_at(253_402_300_800, 0).unwrap()));
}
