use prism::clean::{choose_home_dir, clean_summary, format_mb, saturating_total};

#[test]
fn format_mb_rounds_to_one_decimal() {
    assert_eq!(format_mb(0), "0");
    assert_eq!(format_mb(1), "0");
    assert_eq!(format_mb(1048576), "1");
    assert_eq!(format_mb(1572864), "1.5");
    assert_eq!(format_mb(104858), "0.1");
    assert_eq!(format_mb(52428), "0");
    assert_eq!(format_mb(52429), "0.1");
    assert_eq!(format_mb(10 * 1048576), "10");
    assert_eq!(format_mb(2 * 1048576 - 1), "2");
    assert_eq!(format_mb(1048576 + 996132), "1.9");
}

#[test]
fn format_mb_matches_float_rounding() {
    for bytes in [3u64, 777_777, 5_000_000, 123_456_789, 987_654_321_012] {
        let mb = bytes as f64 / (1024.0 * 1024.0);
        let rounded = (mb * 10.0).round() / 10.0;
        let expected = if rounded.fract() == 0.0 {
            format!("{}", rounded as u64)
        } else {
            format!("{rounded:.1}")
        };
        assert_eq!(format_mb(bytes), expected);
    }
}

#[test]
fn clean_messages() {
    assert_eq!(clean_summary(false, 0), "Successfully cleared 0MB of cache data");
    assert_eq!(clean_summary(true, 0), "Successfully cleared 0MB of cache data");
    assert_eq!(clean_summary(true, 1572864), "Successfully cleared 1.5MB of cache data");
}

#[test]
fn sizes_add_up_and_saturate() {
    assert_eq!(saturating_total(&vec![]), 0);
    assert_eq!(saturating_total(&vec![1, 2, 3]), 6);
    assert_eq!(saturating_total(&vec![u64::MAX - 1, 5, 7]), u64::MAX);
}

#[test]
fn home_dir_prefers_home() {
    assert_eq!(choose_home_dir(Some("/h".into()), Some("/u".into())), Some("/h".to_string()));
    assert_eq!(choose_home_dir(None, Some("/u".into())), Some("/u".to_string()));
    assert_eq!(choose_home_dir::<String>(None, None), None);
}
