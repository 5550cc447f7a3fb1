use krops_bootstrap::calendar::{format_epoch_utc, parse_iso8601};

#[test]
fn test_iso8601_parser_z_suffix() {
    let ts = parse_iso8601("2024-09-26T10:30:45Z");
    assert!(ts.is_some());
    assert_eq!(ts, Some(1727346645));
}

#[test]
fn test_iso8601_parser_with_offset() {
    let ts = parse_iso8601("2024-09-26T10:30:45+02:00");
    assert!(ts.is_some());
    assert_eq!(ts, Some(1727346645 - 7200));
}

#[test]
fn test_iso8601_parser_fractional() {
    let ts = parse_iso8601("2024-09-26T10:30:45.123456Z");
    assert!(ts.is_some());
    assert_eq!(ts, Some(1727346645));
}

#[test]
fn test_iso8601_parser_invalid() {
    let ts = parse_iso8601("not-a-timestamp");
    assert!(ts.is_none());
}

#[test]
fn iso8601_west_offset_is_added() {
    assert_eq!(parse_iso8601("2024-09-26T10:30:45-05:30"), Some(1727346645 + 19800));
}

#[test]
fn iso8601_surrounding_white_space_is_ignored() {
    assert_eq!(parse_iso8601("  1970-01-01T00:00:00Z\n"), Some(0));
    assert_eq!(parse_iso8601("1969-12-31T23:59:59Z"), Some(-1));
}

#[test]
fn iso8601_rejects_fields_out_of_range() {
    for bad in [
        "2024-13-26T10:30:45Z",
        "2024-00-26T10:30:45Z",
        "2024-09-32T10:30:45Z",
        "2024-09-26T24:30:45Z",
        "2024-09-26T10:60:45Z",
        "2024-09-26T10:30:60Z",
        "2024-09-26 10:30:45Z",
        "2024-09-26T10:30:45",
        "2024-09-26",
        "2024-09-26T10:30:45+0200",
        "2024-09-26T10:30:4é",
        "é024-09-26T10:30:45Z",
        "",
    ] {
        assert_eq!(parse_iso8601(bad), None, "{bad}");
    }
}

#[test]
fn epoch_is_formatted_as_civil_time() {
    assert_eq!(format_epoch_utc(0), "1970-01-01 00:00:00 UTC");
    assert_eq!(format_epoch_utc(1727346645), "2024-09-26 10:30:45 UTC");
    assert_eq!(format_epoch_utc(951782400), "2000-02-29 00:00:00 UTC");
    assert_eq!(format_epoch_utc(-1), "1969-12-31 23:59:59 UTC");
    assert_eq!(format_epoch_utc(253402300799), "9999-12-31 23:59:59 UTC");
}

#[test]
fn formatted_timestamps_read_back() {
    for t in [0, 1, 86399, 86400, 951782399, 1727346645, 4102444800, 253402300799] {
        let text = format_epoch_utc(t);
        let iso = text.replace(" UTC", "Z").replace(' ', "T");
        assert_eq!(parse_iso8601(&iso), Some(t), "{iso}");
    }
}
