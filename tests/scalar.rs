use music_xml::scalar::{parse_char, parse_u16, parse_u8};

#[test]
fn unsigned_values_parse_like_from_str() {
    assert_eq!(parse_u8("60"), Some(60));
    assert_eq!(parse_u8("+7"), Some(7));
    assert_eq!(parse_u8("007"), Some(7));
    assert_eq!(parse_u8("255"), Some(255));
    assert_eq!(parse_u8("256"), None);
    assert_eq!(parse_u8("1000"), None);
    assert_eq!(parse_u8(""), None);
    assert_eq!(parse_u8("+"), None);
    assert_eq!(parse_u8("-1"), None);
    assert_eq!(parse_u8(" 1"), None);
    assert_eq!(parse_u8("1x"), None);
    assert_eq!(parse_u16("65535"), Some(65535));
    assert_eq!(parse_u16("65536"), None);
    for s in ["0", "9", "42", "+300", "999999", "", "a"] {
        assert_eq!(parse_u16(s), s.parse::<u16>().ok());
        assert_eq!(parse_u8(s), s.parse::<u8>().ok());
    }
}

#[test]
fn chars_parse_from_one_character() {
    assert_eq!(parse_char("G"), Some('G'));
    assert_eq!(parse_char("é"), Some('é'));
    assert_eq!(parse_char(""), None);
    assert_eq!(parse_char("GF"), None);
}
