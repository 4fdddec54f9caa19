use build_cleaner::cli::size_parts;

/// A size text in bytes: the library splits off the unit and its multiplier,
/// the number is read as a floating-point value.
fn parse_size(s: &str) -> Option<u64> {
    let (num_str, multiplier) = size_parts(s)?;
    let num: f64 = num_str.trim().parse().ok()?;
    Some((num * multiplier as f64) as u64)
}

#[test]
fn test_parse_size() {
    assert_eq!(parse_size("100"), Some(100));
    assert_eq!(parse_size("100B"), Some(100));
    assert_eq!(parse_size("1KB"), Some(1_000));
    assert_eq!(parse_size("1KiB"), Some(1_024));
    assert_eq!(parse_size("100MB"), Some(100_000_000));
    assert_eq!(parse_size("1GB"), Some(1_000_000_000));
    assert_eq!(parse_size("1GiB"), Some(1_073_741_824));
    assert_eq!(parse_size("invalid"), None);
}

#[test]
fn fractional_and_spaced_sizes() {
    assert_eq!(parse_size(" 1.5 gb "), Some(1_500_000_000));
    assert_eq!(parse_size("2 TiB"), Some(2 * 1_099_511_627_776));
    assert_eq!(parse_size("10XB"), None);
}
