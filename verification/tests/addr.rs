use tunnel_manager::addr::is_loopback_host;
use tunnel_manager::literal::{parse_ipv4, parse_ipv6};

#[test]
fn named_loopback_hosts() {
    assert!(is_loopback_host("localhost"));
    assert!(is_loopback_host("::1"));
    assert!(is_loopback_host("0.0.0.0"));
    assert!(is_loopback_host("127.0.0.1"));
}

#[test]
fn loopback_names_are_trimmed_and_case_is_ignored() {
    assert!(is_loopback_host("  localhost "));
    assert!(is_loopback_host("LOCALHOST"));
    assert!(is_loopback_host("LocalHost\n"));
    assert!(is_loopback_host(" 127.0.0.1\t"));
    assert!(is_loopback_host(" ::1 "));
}

#[test]
fn capital_letters_outside_the_names_do_not_matter() {
    assert!(is_loopback_host("LOCALHOST"));
    assert!(is_loopback_host("lOcAlHoSt"));
    assert!(!is_loopback_host("LOCALH0ST"));
    assert!(is_loopback_host("0:0:0:0:0:0:0:1"));
    assert!(!is_loopback_host("\u{212a}ocalhost"));
}

#[test]
fn every_address_that_starts_with_127_is_loopback() {
    assert!(is_loopback_host("127.0.0.2"));
    assert!(is_loopback_host("127.255.255.255"));
    assert!(is_loopback_host("127.1.2.3"));
    assert!(is_loopback_host("127.0.0.0"));
}

#[test]
fn every_form_of_the_ipv6_loopback_address_is_loopback() {
    assert!(is_loopback_host("0:0:0:0:0:0:0:1"));
    assert!(is_loopback_host("0000:0000:0000:0000:0000:0000:0000:0001"));
    assert!(is_loopback_host("::0001"));
    assert!(is_loopback_host("0::1"));
    assert!(is_loopback_host("::0:1"));
    assert!(is_loopback_host("0:0::0:1"));
    assert!(is_loopback_host("::0.0.0.1"));
    assert!(is_loopback_host("0:0:0:0:0:0:0.0.0.1"));
}

#[test]
fn other_hosts_are_not_loopback() {
    assert!(!is_loopback_host("10.0.0.5"));
    assert!(!is_loopback_host("example.com"));
    assert!(!is_loopback_host(""));
    assert!(!is_loopback_host("local host"));
    assert!(!is_loopback_host("localhost.localdomain"));
    assert!(!is_loopback_host("128.0.0.1"));
    assert!(!is_loopback_host("1.0.0.127"));
    assert!(!is_loopback_host("0.0.0.1"));
    assert!(!is_loopback_host("::"));
    assert!(!is_loopback_host("::2"));
    assert!(!is_loopback_host("1::1"));
    assert!(!is_loopback_host("::1:0"));
    assert!(!is_loopback_host("::ffff:127.0.0.1"));
    assert!(!is_loopback_host("fe80::1"));
}

#[test]
fn malformed_addresses_are_not_loopback() {
    assert!(!is_loopback_host("127.0.0"));
    assert!(!is_loopback_host("127.0.0.1.1"));
    assert!(!is_loopback_host("127.0.0.01"));
    assert!(!is_loopback_host("0127.0.0.1"));
    assert!(!is_loopback_host("127.0.0.256"));
    assert!(!is_loopback_host("127.0.0.1:80"));
    assert!(!is_loopback_host("127.0.0.-1"));
    assert!(!is_loopback_host("127..0.1"));
    assert!(!is_loopback_host("[::1]"));
    assert!(!is_loopback_host(":::1"));
    assert!(!is_loopback_host("::1::"));
    assert!(!is_loopback_host("0:0:0:0:0:0:0:0:1"));
    assert!(!is_loopback_host("::00001"));
    assert!(!is_loopback_host("::1%lo"));
    assert!(!is_loopback_host("0.0.0.1::"));
}

#[test]
fn ipv4_addresses_are_four_decimal_numbers() {
    assert_eq!(parse_ipv4("127.0.0.1"), Some((127, 0, 0, 1)));
    assert_eq!(parse_ipv4("0.0.0.0"), Some((0, 0, 0, 0)));
    assert_eq!(parse_ipv4("255.255.255.255"), Some((255, 255, 255, 255)));
    assert_eq!(parse_ipv4("10.20.30.40"), Some((10, 20, 30, 40)));
    assert_eq!(parse_ipv4("1.2.3.4"), Some((1, 2, 3, 4)));
}

#[test]
fn ipv4_addresses_have_no_leading_zeros_and_no_large_numbers() {
    assert_eq!(parse_ipv4("01.2.3.4"), None);
    assert_eq!(parse_ipv4("1.2.3.04"), None);
    assert_eq!(parse_ipv4("1.2.3.00"), None);
    assert_eq!(parse_ipv4("256.0.0.0"), None);
    assert_eq!(parse_ipv4("1.2.3.999"), None);
    assert_eq!(parse_ipv4("1.2.3.1000"), None);
}

#[test]
fn ipv4_addresses_have_nothing_around_them() {
    assert_eq!(parse_ipv4(""), None);
    assert_eq!(parse_ipv4("1.2.3"), None);
    assert_eq!(parse_ipv4("1.2.3."), None);
    assert_eq!(parse_ipv4(".1.2.3"), None);
    assert_eq!(parse_ipv4("1.2.3.4."), None);
    assert_eq!(parse_ipv4("1.2.3.4.5"), None);
    assert_eq!(parse_ipv4(" 1.2.3.4"), None);
    assert_eq!(parse_ipv4("1.2.3.4 "), None);
    assert_eq!(parse_ipv4("1.2.3.a"), None);
    assert_eq!(parse_ipv4("1,2,3,4"), None);
    assert_eq!(parse_ipv4("١.٢.٣.٤"), None);
}

fn v6(groups: [u16; 8]) -> Option<Vec<u16>> {
    Some(groups.to_vec())
}

#[test]
fn ipv6_addresses_in_full() {
    assert_eq!(parse_ipv6("1:2:3:4:5:6:7:8"), v6([1, 2, 3, 4, 5, 6, 7, 8]));
    assert_eq!(
        parse_ipv6("2001:0db8:85a3:0000:0000:8a2e:0370:7334"),
        v6([0x2001, 0x0db8, 0x85a3, 0, 0, 0x8a2e, 0x0370, 0x7334])
    );
    assert_eq!(
        parse_ipv6("FFFF:ffff:AbCd:0:0:0:0:0"),
        v6([0xffff, 0xffff, 0xabcd, 0, 0, 0, 0, 0])
    );
}

#[test]
fn ipv6_addresses_with_a_gap() {
    assert_eq!(parse_ipv6("::"), v6([0; 8]));
    assert_eq!(parse_ipv6("::1"), v6([0, 0, 0, 0, 0, 0, 0, 1]));
    assert_eq!(parse_ipv6("1::"), v6([1, 0, 0, 0, 0, 0, 0, 0]));
    assert_eq!(parse_ipv6("fe80::1"), v6([0xfe80, 0, 0, 0, 0, 0, 0, 1]));
    assert_eq!(parse_ipv6("1:2::7:8"), v6([1, 2, 0, 0, 0, 0, 7, 8]));
    assert_eq!(parse_ipv6("1:2:3:4:5:6:7::"), v6([1, 2, 3, 4, 5, 6, 7, 0]));
    assert_eq!(parse_ipv6("::2:3:4:5:6:7:8"), v6([0, 2, 3, 4, 5, 6, 7, 8]));
    assert_eq!(parse_ipv6("1:2:3::5:6:7:8"), v6([1, 2, 3, 0, 5, 6, 7, 8]));
}

#[test]
fn ipv6_addresses_that_end_in_an_ipv4_address() {
    assert_eq!(parse_ipv6("::ffff:192.168.1.2"), v6([0, 0, 0, 0, 0, 0xffff, 0xc0a8, 0x0102]));
    assert_eq!(parse_ipv6("::127.0.0.1"), v6([0, 0, 0, 0, 0, 0, 0x7f00, 1]));
    assert_eq!(parse_ipv6("1:2:3:4:5:6:7.8.9.10"), v6([1, 2, 3, 4, 5, 6, 0x0708, 0x090a]));
    assert_eq!(parse_ipv6("64:ff9b::255.255.255.255"), v6([0x64, 0xff9b, 0, 0, 0, 0, 0xffff, 0xffff]));
    assert_eq!(parse_ipv6("1:2:3:4:5::1.2.3.4"), v6([1, 2, 3, 4, 5, 0, 0x0102, 0x0304]));
}

#[test]
fn ipv6_addresses_that_are_malformed() {
    for text in [
        "",
        ":",
        ":::",
        "1",
        "1:2:3:4:5:6:7",
        "1:2:3:4:5:6:7:8:9",
        "1:2:3:4:5:6:7:8:",
        ":1:2:3:4:5:6:7:8",
        "1::2::3",
        "::1:2:3:4:5:6:7:8",
        "1:2:3:4:5:6:7:8::",
        "12345::",
        "::12345",
        "::g",
        "1.2.3.4",
        "1.2.3.4::",
        "1.2.3.4:5:6:7:8:9:10",
        "1:2:3:4:5:6:7:1.2.3.4",
        "1:2:3:4:5:6::1.2.3.4",
        "::1.2.3",
        "::1.2.3.4.5",
        "::1.2.3.04",
        "::1.2.3.4:5",
        "::1 ",
        " ::1",
        "[::1]",
        "::1%eth0",
        "::1/128",
    ] {
        assert_eq!(parse_ipv6(text), None, "{text}");
    }
}
