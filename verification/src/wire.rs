//! How ports, addresses and replies are laid out in bytes.
use crate::addr::{AddrView, SocketAddr, SocketAddrV4, SocketAddrV6};
use crate::v5;
use crate::window;
use crate::window::{window_new, window_set_end};
use tokio_core::io::Window;
use vstd::prelude::*;

verus! {

/// The number that two bytes stand for, the more significant one first.
pub open spec fn be16(hi: u8, lo: u8) -> u16 {
    (hi * 256 + lo) as u16
}

/// The two bytes of a number, the more significant one first.
pub open spec fn be16_bytes(n: u16) -> Seq<u8> {
    seq![(n / 256) as u8, (n % 256) as u8]
}

/// Joins two bytes, the more significant one first.
pub fn join_u16(hi: u8, lo: u8) -> (n: u16)
    ensures
        n == be16(hi, lo),
        n == 256 * hi + lo,
{
    assert(((hi as u16) << 8) | (lo as u16) == (hi as u16) * 256 + (lo as u16)) by (bit_vector);
    ((hi as u16) << 8) | (lo as u16)
}

/// Takes a number apart into its two bytes, the more significant one first.
pub fn split_u16(n: u16) -> (bytes: (u8, u8))
    ensures
        seq![bytes.0, bytes.1] == be16_bytes(n),
        256 * bytes.0 + bytes.1 == n,
{
    assert((n >> 8) as u8 == (n / 256) as u8) by (bit_vector);
    assert(n as u8 == (n % 256) as u8) by (bit_vector);
    ((n >> 8) as u8, n as u8)
}

/// The address that four octets and a port stand for.
pub open spec fn ipv4_of(buf: Seq<u8>) -> AddrView {
    AddrView::V4 { octets: buf.subrange(0, 4), port: be16(buf[4], buf[5]) }
}

/// The address that eight segments of two bytes and a port stand for.
pub open spec fn ipv6_of(buf: Seq<u8>) -> AddrView {
    AddrView::V6 {
        segments: Seq::new(8, |i: int| be16(buf[2 * i], buf[2 * i + 1])),
        port: be16(buf[16], buf[17]),
        flowinfo: 0,
        scope_id: 0,
    }
}

/// Reads an IPv4 address and its port.
pub fn decode_ipv4(buf: &[u8]) -> (addr: SocketAddr)
    requires
        buf@.len() == 6,
    ensures
        addr@ == ipv4_of(buf@),
        match addr {
            SocketAddr::V4(a) => {
                &&& forall|i: int| 0 <= i < 4 ==> #[trigger] a.octets@[i] == buf@[i]
                &&& a.port == 256 * buf@[4] + buf@[5]
            },
            SocketAddr::V6(_) => false,
        },
{
    let octets = [buf[0], buf[1], buf[2], buf[3]];
    assert(octets@ =~= buf@.subrange(0, 4));
    SocketAddr::V4(SocketAddrV4 { octets, port: join_u16(buf[4], buf[5]) })
}

/// Reads an IPv6 address and its port. The wire carries no flow information
/// and no scope: both are 0.
pub fn decode_ipv6(buf: &[u8]) -> (addr: SocketAddr)
    requires
        buf@.len() == 18,
    ensures
        addr@ == ipv6_of(buf@),
        match addr {
            SocketAddr::V4(_) => false,
            SocketAddr::V6(a) => {
                &&& forall|i: int|
                    0 <= i < 8 ==> #[trigger] a.segments@[i] == 256 * buf@[2 * i] + buf@[2 * i + 1]
                &&& a.port == 256 * buf@[16] + buf@[17]
                &&& a.flowinfo == 0
                &&& a.scope_id == 0
            },
        },
{
    let mut segments = [0u16; 8];
    let mut i: usize = 0;
    while i < 8
        invariant
            i <= 8,
            buf@.len() == 18,
            forall|j: int| 0 <= j < i ==> #[trigger] segments@[j] == be16(buf@[2 * j], buf@[2 * j + 1]),
        decreases 8 - i,
    {
        segments[i] = join_u16(buf[2 * i], buf[2 * i + 1]);
        i = i + 1;
    }
    assert(segments@ =~= ipv6_of(buf@)->segments);
    SocketAddr::V6(
        SocketAddrV6 { segments, port: join_u16(buf[16], buf[17]), flowinfo: 0, scope_id: 0 },
    )
}

/// The bytes of a row of segments, two for each.
pub open spec fn segment_bytes(segments: Seq<u16>) -> Seq<u8> {
    Seq::new(2 * segments.len(), |i: int| be16_bytes(segments[i / 2])[i % 2])
}

/// An address as the protocol writes it: its type, the address, the port.
pub open spec fn address_bytes(addr: AddrView) -> Seq<u8> {
    match addr {
        AddrView::V4 { octets, port } => seq![v5::ATYP_IPV4] + octets + be16_bytes(port),
        AddrView::V6 { segments, port, .. } => seq![v5::ATYP_IPV6] + segment_bytes(segments)
            + be16_bytes(port),
    }
}

/// The reply to a request: version, reply code, a reserved byte, and the
/// address that the connection is bound to.
pub open spec fn reply_bytes(code: u8, bound: AddrView) -> Seq<u8> {
    seq![v5::VERSION, code, 0u8] + address_bytes(bound)
}

/// Writes the reply that tells how a request went.
pub fn reply(code: u8, bound: &SocketAddr) -> (w: Window<[u8; 32]>)
    ensures
        window::window_bytes(w) == reply_bytes(code, bound@),
        window::window_start(w) == 0,
        ({
            let bytes = window::window_buffer(w);
            &&& bytes.len() >= 22
            &&& bytes[0] == 5
            &&& bytes[1] == code
            &&& bytes[2] == 0
            &&& match *bound {
                SocketAddr::V4(a) => {
                    &&& window::window_end(w) == 10
                    &&& bytes[3] == 1
                    &&& forall|i: int| 0 <= i < 4 ==> bytes[4 + i] == #[trigger] a.octets@[i]
                    &&& 256 * bytes[8] + bytes[9] == a.port
                },
                SocketAddr::V6(a) => {
                    &&& window::window_end(w) == 22
                    &&& bytes[3] == 4
                    &&& forall|i: int|
                        0 <= i < 8 ==> 256 * bytes[4 + 2 * i] + bytes[5 + 2 * i]
                            == #[trigger] a.segments@[i]
                    &&& 256 * bytes[20] + bytes[21] == a.port
                },
            }
        }),
{
    let mut resp = [0u8; 32];
    resp[0] = v5::VERSION;
    resp[1] = code;
    resp[2] = 0;
    let mut pos: usize = 4;
    let port: u16 = match bound {
        SocketAddr::V4(a) => {
            resp[3] = v5::ATYP_IPV4;
            while pos < 8
                invariant
                    4 <= pos <= 8,
                    resp@[0] == v5::VERSION,
                    resp@[1] == code,
                    resp@[2] == 0,
                    resp@[3] == v5::ATYP_IPV4,
                    forall|j: int| 4 <= j < pos ==> #[trigger] resp@[j] == a.octets@[j - 4],
                decreases 8 - pos,
            {
                resp[pos] = a.octets[pos - 4];
                pos = pos + 1;
            }
            a.port
        },
        SocketAddr::V6(a) => {
            resp[3] = v5::ATYP_IPV6;
            let mut i: usize = 0;
            while i < 8
                invariant
                    i <= 8,
                    pos == 4 + 2 * i,
                    resp@[0] == v5::VERSION,
                    resp@[1] == code,
                    resp@[2] == 0,
                    resp@[3] == v5::ATYP_IPV6,
                    forall|j: int|
                        0 <= j < i ==> 256 * resp@[4 + 2 * j] + resp@[5 + 2 * j]
                            == #[trigger] a.segments@[j],
                    forall|j: int|
                        4 <= j < pos ==> #[trigger] resp@[j] == segment_bytes(a.segments@)[j - 4],
                decreases 8 - i,
            {
                let bytes = split_u16(a.segments[i]);
                assert(be16_bytes(a.segments@[i as int]) =~= seq![bytes.0, bytes.1]);
                assert((2 * i) / 2 == i && (2 * i + 1) / 2 == i);
                assert((2 * i) % 2 == 0 && (2 * i + 1) % 2 == 1);
                resp[pos] = bytes.0;
                resp[pos + 1] = bytes.1;
                pos = pos + 2;
                i = i + 1;
            }
            a.port
        },
    };
    let bytes = split_u16(port);
    resp[pos] = bytes.0;
    resp[pos + 1] = bytes.1;
    assert(be16_bytes(port) =~= seq![bytes.0, bytes.1]);
    let mut w = window_new(resp);
    window_set_end(&mut w, pos + 2);
    assert(window::window_bytes(w) =~= reply_bytes(code, bound@));
    w
}

} // verus!
