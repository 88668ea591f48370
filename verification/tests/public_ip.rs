//! The public address.

use wireguard_gui::public_ip::{from_trace, parse_cf_trace};

const SAMPLE_TRACE: &str = "\
fl=123abc
h=1.1.1.1
ip=203.0.113.42
ts=1718273400.123
visit_scheme=https
uag=Mozilla/5.0
colo=SIN
sliver=none
http=http/2
loc=IN
tls=TLSv1.3
sni=plaintext
warp=off
gateway=off
rbi=off
kex=X25519
";

#[test]
fn parses_ip_from_sample_trace() {
    assert_eq!(
        parse_cf_trace(SAMPLE_TRACE),
        Some("203.0.113.42".to_owned())
    );
}

#[test]
fn parses_ipv6_address() {
    let body = "fl=x\nip=2001:db8::1\nts=0\n";
    assert_eq!(parse_cf_trace(body), Some("2001:db8::1".to_owned()));
}

#[test]
fn returns_none_when_ip_line_missing() {
    let body = "fl=abc\nts=1234\nwarp=off\n";
    assert_eq!(parse_cf_trace(body), None);
}

#[test]
fn returns_none_on_empty_body() {
    assert_eq!(parse_cf_trace(""), None);
}

#[test]
fn returns_none_when_ip_value_empty() {
    let body = "fl=abc\nip=\nts=1234\n";
    assert_eq!(parse_cf_trace(body), None);
}

#[test]
fn does_not_match_keys_that_only_contain_ip() {
    let body = "myip=1.2.3.4\nskip=no\n";
    assert_eq!(parse_cf_trace(body), None);
}

#[test]
fn returns_first_ip_line_when_duplicated() {
    let body = "ip=10.0.0.1\nip=10.0.0.2\n";
    assert_eq!(parse_cf_trace(body), Some("10.0.0.1".to_owned()));
}

#[test]
fn handles_windows_line_endings() {
    let body = "fl=abc\r\nip=198.51.100.7\r\nts=0\r\n";
    assert_eq!(parse_cf_trace(body), Some("198.51.100.7".to_owned()));
}

#[test]
fn handles_ip_line_with_surrounding_whitespace_only_in_value() {
    let body = "ip=  1.2.3.4  \nts=0\n";
    assert_eq!(parse_cf_trace(body), Some("1.2.3.4".to_owned()));
}

#[test]
fn an_answer_without_an_address_asks_for_the_fallback() {
    assert_eq!(from_trace(Ok("fl=1\nip=192.0.2.4\n".to_owned())), Some("192.0.2.4".to_owned()));
    assert_eq!(from_trace(Ok("fl=1\n".to_owned())), None);
    assert_eq!(from_trace(Err("timed out".to_owned())), None);
}
