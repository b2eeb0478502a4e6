//! Exact values for the derived computations and their rendering.

use pace_calculator::derived::{
    decimal_string, mmss_string, split_row_label, split_rows, total_duration_label, total_seconds,
    two_digit_string,
};

#[test]
fn total_duration_formula() {
    // 360 s/km over 2500 m: 360 * 2500 / 1000 = 900 s.
    assert_eq!(total_seconds(360, 2500), Some(900));
    assert_eq!(total_duration_label(360, 2500), Some("15:00".to_string()));
    // Truncated, not rounded: 300 * 1999 / 1000 = 599.7 -> 599 s.
    assert_eq!(total_seconds(300, 1999), Some(599));
    assert_eq!(total_duration_label(300, 1999), Some("09:59".to_string()));
    // Undefined while either input is unset.
    assert_eq!(total_seconds(0, 1000), None);
    assert_eq!(total_seconds(300, 0), None);
    assert_eq!(total_duration_label(0, 0), None);
}

#[test]
fn minutes_wider_than_two_digits() {
    // 6000 s is 100 minutes; the minutes field grows past two digits.
    assert_eq!(total_duration_label(6000, 1000), Some("100:00".to_string()));
}

#[test]
fn split_table_shape() {
    // 2500 / 400 = 6 markers, the last at 2400 <= 2500.
    let rows = split_rows(360, 2500, 400);
    assert_eq!(rows.len(), 6);
    for (i, row) in rows.iter().enumerate() {
        assert_eq!(row.marker, (i + 1) * 400);
        assert_eq!(row.seconds, (360 * row.marker as u128) / 1000);
    }
    assert_eq!(rows[0].seconds, 144);
    assert_eq!(split_row_label(rows[0].marker, rows[0].seconds), "400m: 02:24");
    assert_eq!(rows[5].marker, 2400);

    // A distance that is itself a multiple keeps its final marker.
    let exact = split_rows(300, 2000, 500);
    assert_eq!(exact.len(), 4);
    assert_eq!(exact[3].marker, 2000);

    // An interval past the distance yields no rows.
    assert!(split_rows(300, 400, 500).is_empty());
    // So does any unset input.
    assert!(split_rows(0, 2000, 500).is_empty());
    assert!(split_rows(300, 0, 500).is_empty());
    assert!(split_rows(300, 2000, 0).is_empty());
}

#[test]
fn rendering_helpers() {
    assert_eq!(decimal_string(0), "0");
    assert_eq!(decimal_string(907), "907");
    assert_eq!(two_digit_string(7), "07");
    assert_eq!(two_digit_string(59), "59");
    assert_eq!(two_digit_string(123), "123");
    assert_eq!(mmss_string(0), "00:00");
    assert_eq!(mmss_string(59), "00:59");
    assert_eq!(mmss_string(60), "01:00");
    assert_eq!(mmss_string(810), "13:30");
    assert_eq!(mmss_string(3600), "60:00");
}
