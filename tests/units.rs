use restop::units::convert_seconds;

#[test]
fn test_convert_seconds() {
    println!("{}", convert_seconds(0));
    println!("{}", convert_seconds(60));
    println!("{}", convert_seconds(120));
    println!("{}", convert_seconds(200));
    println!("{}", convert_seconds(0231));
    println!("{}", convert_seconds(01002));
    assert_eq!(convert_seconds(0), "00:00:00");
    assert_eq!(convert_seconds(60), "01:00");
    assert_eq!(convert_seconds(120), "02:00");
    assert_eq!(convert_seconds(200), "03:20");
    assert_eq!(convert_seconds(0231), "03:51");
    assert_eq!(convert_seconds(01002), "16:42");
}

#[test]
fn convert_seconds_pads_after_hours() {
    assert_eq!(convert_seconds(3600), "01:00:00");
    assert_eq!(convert_seconds(3661), "01:01:01");
    assert_eq!(convert_seconds(7), "07");
}

#[test]
fn convert_seconds_days_and_years() {
    assert_eq!(convert_seconds(86400), "01d ");
    assert_eq!(convert_seconds(86400 + 3600), "01d 01:00:00");
    assert_eq!(convert_seconds(365 * 24 * 3600 + 5), "01y 05");
    assert_eq!(convert_seconds(100 * 365 * 24 * 3600), "100y ");
}
