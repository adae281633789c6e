use bucket_ops::numtext::i64_dec;
use bucket_ops::numtext::u64_dec;
use bucket_ops::present::format_object;
use bucket_ops::present::pad_left;
use bucket_ops::present::pad_right;
use bucket_ops::present::present_lines;
use bucket_ops::present::render_line;
use bucket_ops::ObjectSummary;

#[test]
fn decimal_of_small_numbers() {
    assert_eq!(u64_dec(0), "0");
    assert_eq!(u64_dec(7), "7");
    assert_eq!(u64_dec(10), "10");
    assert_eq!(u64_dec(407), "407");
}

#[test]
fn decimal_of_extreme_numbers() {
    assert_eq!(u64_dec(u64::MAX), format!("{}", u64::MAX));
    assert_eq!(i64_dec(i64::MAX), format!("{}", i64::MAX));
    assert_eq!(i64_dec(i64::MIN), format!("{}", i64::MIN));
    assert_eq!(i64_dec(-1), "-1");
    assert_eq!(i64_dec(0), "0");
}

#[test]
fn padding_matches_format_alignment() {
    assert_eq!(pad_left("ab", 5), format!("{:>5}", "ab"));
    assert_eq!(pad_right("ab", 5), format!("{:<5}", "ab"));
    assert_eq!(pad_left("", 3), "   ");
    assert_eq!(pad_right("", 3), "   ");
}

#[test]
fn padding_never_truncates() {
    assert_eq!(pad_left("abcdef", 3), "abcdef");
    assert_eq!(pad_right("abcdef", 3), "abcdef");
}

#[test]
fn all_absent_fields_render_as_placeholders() {
    let summary = ObjectSummary::new(None, None, None);
    let line = format_object(&summary);
    assert_eq!(line, format!("{:<40} | {:>20} | {:>10} bytes", "unknown", "unknown", 0));
}

#[test]
fn epoch_zero_renders_as_date_and_time() {
    let summary = ObjectSummary::new(Some("k".to_string()), Some(0), Some(5));
    let line = format_object(&summary);
    assert_eq!(
        line,
        format!("{:<40} | {:>20} | {:>10} bytes", "k", "1970-01-01T00:00:00Z", 5)
    );
}

#[test]
fn wide_values_widen_the_row_instead_of_truncating() {
    let key = "a-key-well-beyond-forty-characters-in-total-length";
    let line = render_line(&Some(key.to_string()), &None, Some(-1234567890123));
    assert_eq!(
        line,
        format!("{:<40} | {:>20} | {:>10} bytes", key, "unknown", -1234567890123i64)
    );
}

#[test]
fn out_of_range_timestamp_renders_as_unknown() {
    let summary = ObjectSummary::new(Some("k".to_string()), Some(i64::MAX), Some(1));
    let line = format_object(&summary);
    assert_eq!(line, format!("{:<40} | {:>20} | {:>10} bytes", "k", "unknown", 1));
}

#[test]
fn one_line_per_summary_in_order() {
    let objects = vec![
        ObjectSummary::new(Some("first".to_string()), None, Some(1)),
        ObjectSummary::new(None, None, None),
    ];
    let lines = present_lines(&objects);
    assert_eq!(lines.len(), 2);
    assert_eq!(lines[0], format!("{:<40} | {:>20} | {:>10} bytes", "first", "unknown", 1));
    assert_eq!(lines[1], format!("{:<40} | {:>20} | {:>10} bytes", "unknown", "unknown", 0));
}
