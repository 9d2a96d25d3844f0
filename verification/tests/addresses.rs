use shim_core::addr::{parse_addr, parse_dec, u8_dec_string, Ipv4Address};
use shim_core::engines::SpinEngine;

#[test]
fn engine_can_parse_spin_address() {
    let parsed = parse_addr(SpinEngine::spin_addr()).unwrap();
    assert_eq!(parsed.clone().port(), 80);
    assert_eq!(parsed.ip().to_string(), "0.0.0.0");
}

#[test]
fn main_can_parse_spin_address() {
    let parsed = parse_addr(SpinEngine::spin_addr()).unwrap();
    assert_eq!(parsed.port(), 80);
    assert_eq!(parsed.ip().to_string(), "0.0.0.0");
}

#[test]
fn addresses_parse_exactly() {
    let sa = parse_addr("127.0.0.1:8082").unwrap();
    assert_eq!(sa.ip(), Ipv4Address { a: 127, b: 0, c: 0, d: 1 });
    assert_eq!(sa.port(), 8082);
    let sa = parse_addr("255.255.255.255:65535").unwrap();
    assert_eq!(sa.port(), 65535);
    assert_eq!(sa.ip().to_string(), "255.255.255.255");
}

#[test]
fn bad_addresses_are_rejected() {
    assert!(parse_addr("0.0.0.0").is_none());
    assert!(parse_addr("0.0.0:80").is_none());
    assert!(parse_addr("0.0.0.256:80").is_none());
    assert!(parse_addr("0.0.0.0:65536").is_none());
    assert!(parse_addr("a.b.c.d:80").is_none());
    assert!(parse_addr("0.0.0.0:80:90").is_none());
    assert!(parse_addr(":80").is_none());
    assert!(parse_addr("0.0.0.0:").is_none());
}

#[test]
fn bounded_decimals_parse_exactly() {
    assert_eq!(parse_dec("0", 255), Some(0));
    assert_eq!(parse_dec("255", 255), Some(255));
    assert_eq!(parse_dec("256", 255), None);
    assert_eq!(parse_dec("007", 255), Some(7));
    assert_eq!(parse_dec("", 255), None);
    assert_eq!(parse_dec("12x", 255), None);
    assert_eq!(parse_dec("65535", 65535), Some(65535));
}

#[test]
fn octets_print_in_decimal() {
    assert_eq!(u8_dec_string(0), "0");
    assert_eq!(u8_dec_string(9), "9");
    assert_eq!(u8_dec_string(10), "10");
    assert_eq!(u8_dec_string(80), "80");
    assert_eq!(u8_dec_string(100), "100");
    assert_eq!(u8_dec_string(255), "255");
}
