use cook_screen::render::image_id::parse_image_id;

#[test]
fn parses_decimal_ids() {
    assert_eq!(parse_image_id("0"), Some(0));
    assert_eq!(parse_image_id("42"), Some(42));
    assert_eq!(parse_image_id("+42"), Some(42));
    assert_eq!(parse_image_id("007"), Some(7));
    assert_eq!(parse_image_id("18446744073709551615"), Some(u64::MAX));
    assert_eq!(parse_image_id("00018446744073709551615"), Some(u64::MAX));
}

#[test]
fn rejects_what_is_no_id() {
    assert_eq!(parse_image_id(""), None);
    assert_eq!(parse_image_id("+"), None);
    assert_eq!(parse_image_id("-"), None);
    assert_eq!(parse_image_id("-1"), None);
    assert_eq!(parse_image_id("++1"), None);
    assert_eq!(parse_image_id("1+"), None);
    assert_eq!(parse_image_id(" 1"), None);
    assert_eq!(parse_image_id("1 "), None);
    assert_eq!(parse_image_id("1_000"), None);
    assert_eq!(parse_image_id("0x10"), None);
    assert_eq!(parse_image_id("12a"), None);
    assert_eq!(parse_image_id("\u{ff14}\u{ff12}"), None);
    assert_eq!(parse_image_id("18446744073709551616"), None);
    assert_eq!(parse_image_id("99999999999999999999999"), None);
}

#[test]
fn agrees_with_the_standard_parser() {
    let samples = [
        "", "0", "1", "+0", "+", "-0", "9", "10", "0000", "42", "4 2", "+42", "42+", "a", "1e3",
        "18446744073709551614", "18446744073709551615", "18446744073709551616",
        "18446744073709551620", "184467440737095516150", "٤٢", "4²", "\n7", "７",
    ];
    for text in samples {
        assert_eq!(parse_image_id(text), text.parse::<u64>().ok(), "{:?}", text);
    }
}
