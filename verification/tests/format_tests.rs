use damage_calc::format::format_number;

#[test]
fn test_format_number() {
    assert_eq!(format_number(1000), "1,000");
    assert_eq!(format_number(1000000), "1,000,000");
    assert_eq!(format_number(123), "123");
}

#[test]
fn test_format_number_edges() {
    assert_eq!(format_number(0), "0");
    assert_eq!(format_number(9), "9");
    assert_eq!(format_number(12), "12");
    assert_eq!(format_number(999), "999");
    assert_eq!(format_number(1234), "1,234");
    assert_eq!(format_number(12345), "12,345");
    assert_eq!(format_number(100000), "100,000");
    assert_eq!(format_number(u32::MAX), "4,294,967,295");
}
