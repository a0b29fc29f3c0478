use mal_query::text::{bool_to_string, date_string, padded2, padded4, parse_u32, u32_to_string};

#[test]
fn decimal_rendering_is_exact() {
    assert_eq!(u32_to_string(0).as_str(), "0");
    assert_eq!(u32_to_string(7).as_str(), "7");
    assert_eq!(u32_to_string(6594).as_str(), "6594");
    assert_eq!(u32_to_string(u32::MAX).as_str(), "4294967295");
}

#[test]
fn decimal_parsing_accepts_digits_only() {
    assert_eq!(parse_u32("0"), Some(0));
    assert_eq!(parse_u32("6594"), Some(6594));
    assert_eq!(parse_u32("4294967295"), Some(u32::MAX));
    assert_eq!(parse_u32("4294967296"), None);
    assert_eq!(parse_u32(""), None);
    assert_eq!(parse_u32("12a"), None);
    assert_eq!(parse_u32("+12"), None);
    assert_eq!(parse_u32("-1"), None);
}

#[test]
fn rendered_identifiers_parse_back() {
    for n in [0u32, 1, 9, 10, 99, 6594, u32::MAX] {
        assert_eq!(parse_u32(u32_to_string(n).as_str()), Some(n));
    }
}

#[test]
fn padding_fills_to_the_field_width() {
    assert_eq!(padded4(3).as_str(), "0003");
    assert_eq!(padded4(988).as_str(), "0988");
    assert_eq!(padded4(2024).as_str(), "2024");
    assert_eq!(padded4(12345).as_str(), "12345");
    assert_eq!(padded2(0).as_str(), "00");
    assert_eq!(padded2(9).as_str(), "09");
    assert_eq!(padded2(11).as_str(), "11");
}

#[test]
fn dates_render_zero_padded() {
    assert_eq!(date_string(2024, 1, 4).as_str(), "2024-01-04");
    assert_eq!(date_string(988, 11, 3).as_str(), "0988-11-03");
}

#[test]
fn booleans_render_lowercase() {
    assert_eq!(bool_to_string(true).as_str(), "true");
    assert_eq!(bool_to_string(false).as_str(), "false");
}
