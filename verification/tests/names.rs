use socks5::addr::{SocketAddr, SocketAddrV4};
use socks5::error::{other, Error, ErrorKind};
use socks5::report::report;
use socks5::resolve::{first_addr, resolve};
use socks5::text::push_decimal;

fn request(host: &[u8], port: u16) -> Vec<u8> {
    let mut buf = host.to_vec();
    buf.push((port >> 8) as u8);
    buf.push(port as u8);
    buf
}

#[test]
fn other_keeps_its_description() {
    let e = other("unknown version");
    assert_eq!(e.kind, ErrorKind::Other);
    assert_eq!(e.message, "unknown version");
}

#[test]
fn name_and_port_are_joined_by_a_colon() {
    assert_eq!(resolve(&request(b"example.com", 80)), Ok("example.com:80".to_string()));
    assert_eq!(resolve(&request(b"localhost", 65535)), Ok("localhost:65535".to_string()));
    assert_eq!(resolve(&request(b"h", 0)), Ok("h:0".to_string()));
}

#[test]
fn name_may_be_empty() {
    assert_eq!(resolve(&[0, 22]), Ok(":22".to_string()));
}

#[test]
fn name_may_hold_any_text() {
    let host = "b\u{fc}cher.\u{4f8b}\u{3048}.\u{1f600}";
    assert_eq!(resolve(&request(host.as_bytes(), 443)), Ok(format!("{}:443", host)));
}

#[test]
fn name_must_be_utf8() {
    let expected = Err(other("hostname buffer provided was not valid utf-8"));
    assert_eq!(resolve(&request(&[0xff], 80)), expected);
    assert_eq!(resolve(&request(&[b'a', 0xc3], 80)), expected);
    assert_eq!(resolve(&request(&[0xed, 0xa0, 0x80], 80)), expected);
    assert_eq!(resolve(&request(&[0xc0, 0xaf], 80)), expected);
}

#[test]
fn different_destinations_have_different_names() {
    assert_ne!(resolve(&request(b"a", 12)), resolve(&request(b"a:1", 2)));
    assert_ne!(resolve(&request(b"a", 1)), resolve(&request(b"a", 10)));
}

#[test]
fn first_address_is_taken() {
    let a = SocketAddr::V4(SocketAddrV4 { octets: [1, 2, 3, 4], port: 5 });
    let b = SocketAddr::V4(SocketAddrV4 { octets: [9, 9, 9, 9], port: 9 });
    assert_eq!(first_addr(&vec![a, b]), Ok(a));
    assert_eq!(first_addr(&vec![b, a]), Ok(b));
}

#[test]
fn no_address_is_an_error() {
    assert_eq!(
        first_addr(&Vec::new()),
        Err(other("no addresses found during name resolution"))
    );
}

#[test]
fn decimal_matches_display() {
    for n in [0u64, 1, 9, 10, 99, 100, 65535, 1234567890, u64::MAX] {
        let mut text = "n = ".to_string();
        push_decimal(&mut text, n);
        assert_eq!(text, format!("n = {}", n));
    }
}

#[test]
fn report_of_success() {
    assert_eq!(report(&Ok((1024, 7)), "10.0.0.1:4000"), "proxied 1024/7 bytes for 10.0.0.1:4000");
    assert_eq!(report(&Ok((0, 0)), "[::1]:9"), "proxied 0/0 bytes for [::1]:9");
}

#[test]
fn report_of_an_error() {
    assert_eq!(
        report(&Err(other("unknown version")), "10.0.0.1:4000"),
        "error for 10.0.0.1:4000: unknown version"
    );
    let refused = Error {
        kind: ErrorKind::ConnectionRefused,
        message: "Connection refused".to_string(),
    };
    assert_eq!(report(&Err(refused), "p"), "error for p: Connection refused");
}
