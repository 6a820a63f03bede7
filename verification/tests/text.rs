use podtunnel::fields::{find_char, push_joined, split_ranges, substring};
use podtunnel::helpers::{default_namespace, ObjectReference};
use podtunnel::net::Ipv4Addr;
use podtunnel::text::{
    char_is_whitespace, chars_of, decimal_string, parse_digits, parse_u8, push_decimal, trimmed,
};
use podtunnel::wireguard::default_wireguard_listen_port;

#[test]
fn decimal_numerals_are_written_without_leading_zeros() {
    assert_eq!(decimal_string(0), "0");
    assert_eq!(decimal_string(7), "7");
    assert_eq!(decimal_string(10), "10");
    assert_eq!(decimal_string(51820), "51820");
    assert_eq!(decimal_string(u64::MAX), "18446744073709551615");
    let mut out = "port ".to_string();
    push_decimal(&mut out, 905);
    assert_eq!(out, "port 905");
}

#[test]
fn numbers_up_to_255_are_read() {
    assert_eq!(parse_u8("0"), Some(0));
    assert_eq!(parse_u8("24"), Some(24));
    assert_eq!(parse_u8("255"), Some(255));
    assert_eq!(parse_u8("+7"), Some(7));
    assert_eq!(parse_u8("007"), Some(7));
    assert_eq!(parse_u8("0000000000000000000000255"), Some(255));
    assert_eq!(parse_u8("256"), None);
    assert_eq!(parse_u8(""), None);
    assert_eq!(parse_u8("+"), None);
    assert_eq!(parse_u8("-1"), None);
    assert_eq!(parse_u8("++1"), None);
    assert_eq!(parse_u8("1 "), None);
    assert_eq!(parse_u8("12a"), None);
    assert_eq!(parse_u8("99999999999999999999999999"), None);
    assert_eq!(parse_u8("٣"), None);
}

#[test]
fn digit_ranges_are_read_with_a_bound() {
    let text = chars_of("ab1234cd");
    assert_eq!(parse_digits(&text, 2, 6, 5000), Some(1234));
    assert_eq!(parse_digits(&text, 2, 6, 1233), None);
    assert_eq!(parse_digits(&text, 2, 2, 5000), None);
    assert_eq!(parse_digits(&text, 1, 6, 5000), None);
    assert_eq!(parse_digits(&text, 2, 7, 5000), None);
}

#[test]
fn white_space_is_trimmed_off_both_ends() {
    assert_eq!(trimmed("  key material\n"), "key material");
    assert_eq!(trimmed("\t\r\n abc \u{a0}\u{3000}"), "abc");
    assert_eq!(trimmed("abc"), "abc");
    assert_eq!(trimmed(" \n "), "");
    assert_eq!(trimmed(""), "");
    assert_eq!(trimmed("\u{200b}x"), "\u{200b}x");
    for c in ['\u{9}', '\u{d}', ' ', '\u{85}', '\u{1680}', '\u{2000}', '\u{200a}', '\u{2028}',
        '\u{2029}', '\u{202f}', '\u{205f}', '\u{3000}']
    {
        assert!(char_is_whitespace(c));
        assert!(c.is_whitespace());
    }
    for c in ['a', '\u{8}', '\u{e}', '\u{200b}', '\u{feff}', '0'] {
        assert!(!char_is_whitespace(c));
        assert!(!c.is_whitespace());
    }
}

#[test]
fn white_space_agrees_with_the_standard_library_on_every_character() {
    let mut code: u32 = 0;
    while code <= 0x10ffff {
        if let Some(c) = char::from_u32(code) {
            assert_eq!(char_is_whitespace(c), c.is_whitespace(), "U+{:04X}", code);
        }
        code += 1;
    }
}

#[test]
fn text_is_split_into_fields() {
    let text = chars_of("a;bc;;d");
    assert_eq!(split_ranges(&text, ';'), vec![(0, 1), (2, 4), (5, 5), (6, 7)]);
    assert_eq!(split_ranges(&chars_of(""), ';'), vec![(0, 0)]);
    assert_eq!(split_ranges(&chars_of("abc"), ';'), vec![(0, 3)]);
    assert_eq!(split_ranges(&chars_of(";"), ';'), vec![(0, 0), (1, 1)]);
    assert_eq!(find_char(&text, 0, ';'), 1);
    assert_eq!(find_char(&text, 2, ';'), 4);
    assert_eq!(find_char(&text, 6, ';'), 7);
    assert_eq!(substring("héllo wörld", 1, 5), "éllo");
}

#[test]
fn strings_are_joined_with_a_separator() {
    let mut out = String::new();
    push_joined(&mut out, &vec!["10.0.100.2/32".to_string(), "192.168.1.5/32".to_string()], ",");
    assert_eq!(out, "10.0.100.2/32,192.168.1.5/32");
    let mut one = "x=".to_string();
    push_joined(&mut one, &vec!["a".to_string()], ",");
    assert_eq!(one, "x=a");
    let mut none = "x=".to_string();
    push_joined(&mut none, &Vec::new(), ",");
    assert_eq!(none, "x=");
}

#[test]
fn addresses_are_written_in_dotted_decimal() {
    assert_eq!(Ipv4Addr::new(10, 0, 100, 1).to_string(), "10.0.100.1");
    assert_eq!(Ipv4Addr::new(0, 0, 0, 0).to_string(), "0.0.0.0");
    assert_eq!(Ipv4Addr::new(255, 255, 255, 255).to_string(), "255.255.255.255");
    assert_eq!(Ipv4Addr::from_bits(0xc0a8_0105).to_string(), "192.168.1.5");
    assert_eq!(Ipv4Addr::new(192, 168, 1, 5).to_bits(), 0xc0a8_0105);
    assert_eq!(Ipv4Addr::new(192, 168, 1, 5).octets(), (192, 168, 1, 5));
    assert!(Ipv4Addr::new(255, 255, 255, 255).is_broadcast());
    assert!(!Ipv4Addr::new(10, 0, 100, 255).is_broadcast());
    assert!(Ipv4Addr::new(0, 0, 0, 0).is_unspecified());
    assert!(!Ipv4Addr::new(0, 0, 0, 1).is_unspecified());
}

#[test]
fn addresses_are_read_from_canonical_dotted_decimal_only() {
    assert_eq!(Ipv4Addr::parse("10.0.100.1"), Some(Ipv4Addr::new(10, 0, 100, 1)));
    assert_eq!(Ipv4Addr::parse("0.0.0.0"), Some(Ipv4Addr::new(0, 0, 0, 0)));
    assert_eq!(Ipv4Addr::parse("255.255.255.255"), Some(Ipv4Addr::new(255, 255, 255, 255)));
    assert_eq!(Ipv4Addr::parse("192.168.1.5"), Some(Ipv4Addr::new(192, 168, 1, 5)));
    for text in [
        "1.2.3",
        "1.2.3.4.5",
        "01.2.3.4",
        "1.2.3.04",
        "00.0.0.0",
        "256.0.0.1",
        "1.2.3.4 ",
        " 1.2.3.4",
        "1..3.4",
        ".1.2.3",
        "1.2.3.",
        "",
        "1.2.3.4/24",
        "+1.2.3.4",
        "1.2.3.1000",
        "0xa.0.0.1",
        "１.2.3.4",
        "192.168.1.05",
    ] {
        assert_eq!(Ipv4Addr::parse(text), None, "{:?}", text);
    }
}

#[test]
fn reading_what_was_written_gives_the_address_back() {
    for bits in [0u32, 1, 255, 256, 0x0a00_6401, 0x7f00_0001, 0xffff_ff00, u32::MAX] {
        let address = Ipv4Addr::from_bits(bits);
        assert_eq!(Ipv4Addr::parse(&address.to_string()), Some(address));
    }
    assert_eq!(Ipv4Addr::from_bits(0x7f00_0001).to_string(), "127.0.0.1");
}

#[test]
fn references_are_written_as_namespace_and_name() {
    let named = ObjectReference { name: "a".to_string(), namespace: Some("default".to_string()) };
    assert_eq!(named.to_string(), "default/a");
    let bare = ObjectReference { name: "a".to_string(), namespace: None };
    assert_eq!(bare.to_string(), "/a");
    assert_eq!(named.clone(), named);
    assert_eq!(ObjectReference::default(), ObjectReference { name: String::new(), namespace: None });
}

#[test]
fn defaults_are_the_default_namespace_and_port() {
    assert_eq!(default_namespace(), Some("default".to_string()));
    assert_eq!(default_wireguard_listen_port(), Some(51820));
}
