use mqtt_sn::cookie::{hex_to_u8, parse_cookie};

#[test]
fn test_hex_to_u8() {
    assert_eq!(hex_to_u8("14"), Some(20));
    assert_eq!(hex_to_u8("25"), Some(37));
    assert_eq!(hex_to_u8("a1"), Some(161));
    assert_eq!(hex_to_u8("b9"), Some(185));
    assert_eq!(hex_to_u8("ff"), Some(255));
    assert_eq!(hex_to_u8("00"), Some(0));
    assert_eq!(hex_to_u8("ce"), Some(206));
    assert_eq!(hex_to_u8("d9"), Some(217));
    assert_eq!(hex_to_u8("ax"), None);
    assert_eq!(hex_to_u8("g3"), None);
    assert_eq!(hex_to_u8("100"), None);
    assert_eq!(hex_to_u8("59a8"), None);
}

#[test]
fn test_parse_cookie() {
    assert_eq!(
        parse_cookie("aabbccddee1a2b3c2312"),
        vec![170, 187, 204, 221, 238, 26, 43, 60, 35, 18]
    );
    assert_eq!(
        parse_cookie("aabbccddee1a2b3c2311"),
        vec![170, 187, 204, 221, 238, 26, 43, 60, 35, 17]
    );
    assert_eq!(
        parse_cookie("aa bb cc dd ee 1a 2b 3c 23 11"),
        vec![170, 187, 204, 221, 238, 26, 43, 60, 35, 17]
    );
    assert_eq!(parse_cookie("default"), vec![]);
}

#[test]
#[should_panic]
fn test_parse_cookie_panic() {
    parse_cookie("aa gg ff ee 1a 2b 3c 4d 5e 6f");
}

#[test]
fn hex_to_u8_short_and_upper_case() {
    assert_eq!(hex_to_u8(""), Some(0));
    assert_eq!(hex_to_u8("7"), Some(7));
    assert_eq!(hex_to_u8("f"), Some(15));
    assert_eq!(hex_to_u8("AB"), None);
    assert_eq!(hex_to_u8("é"), None);
}

#[test]
fn parse_cookie_ignores_trailing_lone_digit() {
    assert_eq!(parse_cookie("0a1"), vec![10]);
    assert_eq!(parse_cookie(""), vec![]);
    assert_eq!(parse_cookie("  ff"), vec![255]);
}

#[test]
fn every_byte_reads_back_from_its_hex_digits() {
    for v in 0..=255u8 {
        assert_eq!(hex_to_u8(&format!("{:02x}", v)), Some(v));
    }
}
