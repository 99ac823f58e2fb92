use socks5::addr::{SocketAddr, SocketAddrV4, SocketAddrV6};
use socks5::v5;
use socks5::wire::{decode_ipv4, decode_ipv6, join_u16, reply, split_u16};

fn v4(octets: [u8; 4], port: u16) -> SocketAddr {
    SocketAddr::V4(SocketAddrV4 { octets, port })
}

fn v6(segments: [u16; 8], port: u16) -> SocketAddr {
    SocketAddr::V6(SocketAddrV6 { segments, port, flowinfo: 0, scope_id: 0 })
}

#[test]
fn port_bytes_are_big_endian() {
    assert_eq!(join_u16(0x1f, 0x90), 8080);
    assert_eq!(split_u16(8080), (0x1f, 0x90));
    assert_eq!(join_u16(0, 80), 80);
    assert_eq!(split_u16(80), (0, 80));
}

#[test]
fn every_number_survives_its_bytes() {
    let mut n: u32 = 0;
    while n <= 0xffff {
        let (hi, lo) = split_u16(n as u16);
        assert_eq!(join_u16(hi, lo), n as u16);
        n += 1;
    }
}

#[test]
fn ipv4_is_four_octets_and_a_port() {
    assert_eq!(decode_ipv4(&[127, 0, 0, 1, 0x46, 0xa0]), v4([127, 0, 0, 1], 18080));
    assert_eq!(decode_ipv4(&[255, 254, 253, 252, 0xff, 0xff]), v4([255, 254, 253, 252], 65535));
}

#[test]
fn ipv6_is_eight_segments_and_a_port() {
    let buf = [0x20, 0x01, 0x0d, 0xb8, 0, 0, 0, 1, 0, 2, 0, 3, 0, 4, 0xff, 0xfe, 0x01, 0xbb];
    assert_eq!(
        decode_ipv6(&buf),
        v6([0x2001, 0x0db8, 0, 1, 2, 3, 4, 0xfffe], 443)
    );
}

#[test]
fn reply_with_ipv4() {
    let w = reply(v5::REP_SUCCEEDED, &v4([10, 1, 2, 3], 0x1234));
    assert_eq!(w.as_ref(), &[5, 0, 0, 1, 10, 1, 2, 3, 0x12, 0x34][..]);
}

#[test]
fn reply_with_ipv6() {
    let w = reply(v5::REP_REFUSED, &v6([0xfe80, 0, 0, 0, 0x0102, 0x0304, 0x0506, 0x0708], 22));
    assert_eq!(
        w.as_ref(),
        &[5, 5, 0, 4, 0xfe, 0x80, 0, 0, 0, 0, 0, 0, 1, 2, 3, 4, 5, 6, 7, 8, 0, 22][..]
    );
}

#[test]
fn window_shows_less_than_its_buffer() {
    let w = reply(v5::REP_FAILURE, &v4([1, 1, 1, 1], 1));
    assert_eq!(w.start(), 0);
    assert_eq!(w.end(), 10);
    assert_eq!(w.get_ref().len(), 32);
    assert_eq!(w.get_ref()[..10], w.as_ref()[..]);
    let w = reply(v5::REP_FAILURE, &v6([1; 8], 1));
    assert_eq!(w.end(), 22);
}

#[test]
fn addresses_are_read_back_from_replies() {
    let addr = v4([192, 168, 0, 7], 51234);
    assert_eq!(decode_ipv4(&reply(0, &addr).as_ref()[4..]), addr);
    let addr = v6([1, 2, 3, 4, 0x500, 0x600, 0x7fff, 0x8000], 65000);
    assert_eq!(decode_ipv6(&reply(0, &addr).as_ref()[4..]), addr);
}

#[test]
fn scope_and_flow_are_not_on_the_wire() {
    let plain = v6([0xfe80, 0, 0, 0, 0, 0, 0, 1], 9);
    let scoped = SocketAddr::V6(SocketAddrV6 {
        segments: [0xfe80, 0, 0, 0, 0, 0, 0, 1],
        port: 9,
        flowinfo: 77,
        scope_id: 3,
    });
    assert_eq!(reply(0, &plain).as_ref(), reply(0, &scoped).as_ref());
}

#[test]
fn different_replies_differ() {
    let a = v4([1, 2, 3, 4], 5);
    assert_ne!(reply(0, &a).as_ref(), reply(1, &a).as_ref());
    assert_ne!(reply(0, &a).as_ref(), reply(0, &v4([1, 2, 3, 4], 6)).as_ref());
    assert_ne!(reply(0, &a).as_ref(), reply(0, &v4([1, 2, 4, 4], 5)).as_ref());
}
