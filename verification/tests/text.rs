use linux_media::text::{
    c_str_end, decode_c_str, format_decimal, format_signed_decimal, format_upper_hex2,
};

#[test]
fn a_c_string_ends_at_its_first_nul() {
    assert_eq!(c_str_end(b"abc\0def\0"), 3);
    assert_eq!(c_str_end(b"\0abc"), 0);
    assert_eq!(c_str_end(b"abc"), 3);
    assert_eq!(c_str_end(b""), 0);
}

#[test]
fn decoding_stops_at_the_first_nul() {
    assert_eq!(decode_c_str(b"imx219 10-0010\0\0\0\0"), "imx219 10-0010");
    assert_eq!(decode_c_str(b"a\0b\0"), "a");
    assert_eq!(decode_c_str(b"\0"), "");
    assert_eq!(decode_c_str(b"no terminator"), "no terminator");
}

#[test]
fn bytes_that_are_not_utf8_are_replaced() {
    assert_eq!(decode_c_str(&[0x66, 0xff, 0x6f, 0x00, 0x41]), "f\u{FFFD}o");
    assert_eq!(decode_c_str(&[0xc3, 0xa9, 0x00]), "\u{e9}");
    assert_eq!(decode_c_str(&[0xc3, 0x00]), "\u{FFFD}");
}

#[test]
fn decimal_of_numbers() {
    assert_eq!(format_decimal(0), "0");
    assert_eq!(format_decimal(7), "7");
    assert_eq!(format_decimal(10), "10");
    assert_eq!(format_decimal(4294967295), "4294967295");
    assert_eq!(format_decimal(u64::MAX), "18446744073709551615");
}

#[test]
fn decimal_of_signed_numbers() {
    assert_eq!(format_signed_decimal(0), "0");
    assert_eq!(format_signed_decimal(-1), "-1");
    assert_eq!(format_signed_decimal(25), "25");
    assert_eq!(format_signed_decimal(i32::MAX), "2147483647");
    assert_eq!(format_signed_decimal(i32::MIN), "-2147483648");
}

#[test]
fn hexadecimal_has_two_digits_at_least() {
    assert_eq!(format_upper_hex2(0), "00");
    assert_eq!(format_upper_hex2(0xa), "0A");
    assert_eq!(format_upper_hex2(0x10), "10");
    assert_eq!(format_upper_hex2(0xff), "FF");
    assert_eq!(format_upper_hex2(0xC048_7C04), "C0487C04");
    assert_eq!(format_upper_hex2(u64::MAX), "FFFFFFFFFFFFFFFF");
}

#[test]
fn formats_agree_with_the_standard_ones() {
    for n in [0u64, 1, 9, 10, 15, 16, 99, 100, 255, 256, 65535, 1 << 31, 1 << 40] {
        assert_eq!(format_decimal(n), format!("{}", n));
        assert_eq!(format_upper_hex2(n), format!("{:02X}", n));
    }
    for i in [0i32, 1, -1, 10, -10, 12345, -12345] {
        assert_eq!(format_signed_decimal(i), format!("{}", i));
    }
}
