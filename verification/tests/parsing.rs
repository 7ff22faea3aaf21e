//! The IPv4/CIDR grammar and the LED JSON body grammar.

use wifi_led::ipv4::{parse_cidr, parse_ipv4, Ipv4Address, Ipv4Cidr};
use wifi_led::json::{parse_led_body, success_body_bytes};

fn addr(o1: u8, o2: u8, o3: u8, o4: u8) -> Ipv4Address {
    Ipv4Address { o1, o2, o3, o4 }
}

#[test]
fn ipv4_parses_exact_octets() {
    assert_eq!(parse_ipv4(b"192.168.0.1"), Some(addr(192, 168, 0, 1)));
    assert_eq!(parse_ipv4(b"0.0.0.0"), Some(addr(0, 0, 0, 0)));
    assert_eq!(parse_ipv4(b"255.255.255.255"), Some(addr(255, 255, 255, 255)));
    assert_eq!(parse_ipv4(b"10.0.42.7"), Some(addr(10, 0, 42, 7)));
}

#[test]
fn ipv4_rejects_out_of_range_octet() {
    assert_eq!(parse_ipv4(b"256.1.1.1"), None);
    assert_eq!(parse_ipv4(b"1.2.3.999"), None);
}

#[test]
fn ipv4_rejects_wrong_shape() {
    assert_eq!(parse_ipv4(b""), None);
    assert_eq!(parse_ipv4(b"1.2.3"), None);
    assert_eq!(parse_ipv4(b"1.2.3.4.5"), None);
    assert_eq!(parse_ipv4(b"1..2.3"), None);
    assert_eq!(parse_ipv4(b"a.b.c.d"), None);
    assert_eq!(parse_ipv4(b"1.2.3.4 "), None);
    assert_eq!(parse_ipv4(b" 1.2.3.4"), None);
}

#[test]
fn ipv4_rejects_leading_zeros() {
    assert_eq!(parse_ipv4(b"01.2.3.4"), None);
    assert_eq!(parse_ipv4(b"1.2.3.007"), None);
    assert_eq!(parse_ipv4(b"0.00.0.0"), None);
}

#[test]
fn cidr_parses_exact_address_and_prefix() {
    assert_eq!(
        parse_cidr(b"192.168.0.50/24"),
        Some(Ipv4Cidr { address: addr(192, 168, 0, 50), prefix_len: 24 })
    );
    assert_eq!(
        parse_cidr(b"192.168.13.37/24"),
        Some(Ipv4Cidr { address: addr(192, 168, 13, 37), prefix_len: 24 })
    );
    assert_eq!(
        parse_cidr(b"10.0.0.1/0"),
        Some(Ipv4Cidr { address: addr(10, 0, 0, 1), prefix_len: 0 })
    );
    assert_eq!(
        parse_cidr(b"10.0.0.1/32"),
        Some(Ipv4Cidr { address: addr(10, 0, 0, 1), prefix_len: 32 })
    );
}

#[test]
fn cidr_rejects_bad_prefix() {
    assert_eq!(parse_cidr(b"10.0.0.1/33"), None);
    assert_eq!(parse_cidr(b"10.0.0.1/"), None);
    assert_eq!(parse_cidr(b"10.0.0.1/08"), None);
    assert_eq!(parse_cidr(b"10.0.0.1/123"), None);
    assert_eq!(parse_cidr(b"10.0.0.1"), None);
    assert_eq!(parse_cidr(b"10.0.0.1/24x"), None);
}

#[test]
fn led_body_accepts_true_and_false() {
    assert_eq!(parse_led_body(b"{\"is_on\": true}"), Some(true));
    assert_eq!(parse_led_body(b"{\"is_on\": false}"), Some(false));
    assert_eq!(parse_led_body(b"{\"is_on\":true}"), Some(true));
    assert_eq!(parse_led_body(b"  {  \"is_on\"  :  false  }  "), Some(false));
    assert_eq!(parse_led_body(b"\r\n{\"is_on\":\ttrue}\n"), Some(true));
}

#[test]
fn led_body_rejects_missing_member() {
    assert_eq!(parse_led_body(b"{}"), None);
    assert_eq!(parse_led_body(b"{\"on\": true}"), None);
    assert_eq!(parse_led_body(b"{\"is_off\": true}"), None);
}

#[test]
fn led_body_rejects_wrong_type() {
    assert_eq!(parse_led_body(b"{\"is_on\": 1}"), None);
    assert_eq!(parse_led_body(b"{\"is_on\": \"true\"}"), None);
    assert_eq!(parse_led_body(b"{\"is_on\": null}"), None);
}

#[test]
fn led_body_rejects_broken_shape() {
    assert_eq!(parse_led_body(b""), None);
    assert_eq!(parse_led_body(b"true"), None);
    assert_eq!(parse_led_body(b"{\"is_on\": true"), None);
    assert_eq!(parse_led_body(b"{\"is_on\": truex}"), None);
    assert_eq!(parse_led_body(b"{\"is_on\": true}}"), None);
    assert_eq!(parse_led_body(b"{\"is_on\": true}x"), None);
    assert_eq!(parse_led_body(b"{\"is_on\": true, \"x\": 1}"), None);
}

#[test]
fn success_body_is_exact() {
    assert_eq!(success_body_bytes(), b"{\"success\":true}".to_vec());
}
