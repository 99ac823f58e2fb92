//! What the mathematical values of the library's types and the layouts on the
//! wire are, down to single bytes and numbers.
use crate::addr::{AddrView, SocketAddr, SocketAddrV4, SocketAddrV6};
use crate::client;
use crate::client::{Action, ActionView, Event, EventView};
use crate::error;
use crate::error::{Error, ErrorKind, ErrorView};
use crate::report;
use crate::resolve;
use crate::text;
use crate::v4;
use crate::v5;
use crate::window;
use crate::wire;
use tokio_core::io::Window;
use vstd::prelude::*;

verus! {

/// The numbers that the protocol gives to versions, methods, commands, address
/// types and replies.
pub proof fn lemma_protocol_numbers()
    ensures
        v5::VERSION == 5,
        v5::METH_NO_AUTH == 0,
        v5::METH_GSSAPI == 1,
        v5::METH_USER_PASS == 2,
        v5::CMD_CONNECT == 1,
        v5::CMD_BIND == 2,
        v5::CMD_UDP_ASSOCIATE == 3,
        v5::ATYP_IPV4 == 1,
        v5::ATYP_DOMAIN == 3,
        v5::ATYP_IPV6 == 4,
        v5::REP_SUCCEEDED == 0,
        v5::REP_FAILURE == 1,
        v5::REP_REFUSED == 5,
        v4::VERSION == 4,
        v4::CMD_CONNECT == 1,
        v4::CMD_BIND == 2,
        client::HANDSHAKE_TIMEOUT_SECS == 10,
{
}

/// The value of an address has its very octets or segments, and its port.
pub proof fn lemma_address_value(a: SocketAddrV4, b: SocketAddrV6)
    ensures
        SocketAddr::V4(a)@ == (AddrView::V4 { octets: a.octets@, port: a.port }),
        SocketAddr::V6(b)@ == (AddrView::V6 {
            segments: b.segments@,
            port: b.port,
            flowinfo: b.flowinfo,
            scope_id: b.scope_id,
        }),
{
}

/// The value of an error has its kind and its message.
pub proof fn lemma_error_value(e: Error, desc: Seq<char>)
    ensures
        e@ == (ErrorView { kind: e.kind, message: e.message@ }),
        error::other_error(desc) == (ErrorView { kind: ErrorKind::Other, message: desc }),
{
}

/// The value of an event is the same event, with the values of what it carries.
pub proof fn lemma_event_value(
    buf: Vec<u8>,
    addrs: Vec<SocketAddr>,
    local: SocketAddr,
    e: Error,
    to_client: u64,
    to_server: u64,
)
    ensures
        Event::Accepted@ == EventView::Accepted,
        Event::TimerStarted@ == EventView::TimerStarted,
        Event::Read(buf)@ == EventView::Read(buf@),
        Event::Written@ == EventView::Written,
        Event::Resolved(addrs)@ is Resolved,
        Event::Resolved(addrs)@->Resolved_0.len() == addrs@.len(),
        forall|i: int|
            0 <= i < addrs@.len() ==> Event::Resolved(addrs)@->Resolved_0[i] == (
            #[trigger] addrs@[i])@,
        Event::Connected(Some(local))@ == EventView::Connected(Some(local@)),
        Event::Connected(None)@ == EventView::Connected(None),
        Event::ConnectFailed(e)@ == EventView::ConnectFailed(e@),
        Event::Relayed(to_client, to_server)@ == EventView::Relayed(to_client, to_server),
        Event::TimedOut@ == EventView::TimedOut,
        Event::Failed(e)@ == EventView::Failed(e@),
{
}

/// The value of an action is the same action, with the values of what it
/// carries; of a reply, it is a write of just what its window has in view.
pub proof fn lemma_action_value(
    n: usize,
    secs: u64,
    bytes: [u8; 2],
    name: String,
    addr: SocketAddr,
    w: Window<[u8; 32]>,
    e: Error,
    to_client: u64,
    to_server: u64,
)
    ensures
        Action::StartTimer(secs)@ == ActionView::StartTimer(secs),
        Action::Read(n)@ == ActionView::Read(n as nat),
        Action::Write(bytes)@ == ActionView::Write(bytes@),
        Action::Resolve(name)@ == ActionView::Resolve(name@),
        Action::Connect(addr)@ == ActionView::Connect(addr@),
        Action::Reply(w)@ == ActionView::Write(
            window::window_buffer(w).subrange(window::window_start(w), window::window_end(w)),
        ),
        Action::Relay@ == ActionView::Relay,
        Action::Finish(to_client, to_server)@ == ActionView::Finish(to_client, to_server),
        Action::Fail(e)@ == ActionView::Fail(e@),
{
}

/// Two bytes stand for 256 times the first and the second, both ways.
pub proof fn lemma_two_byte_numbers(hi: u8, lo: u8, n: u16)
    ensures
        wire::be16(hi, lo) == 256 * hi + lo,
        wire::be16_bytes(n).len() == 2,
        256 * wire::be16_bytes(n)[0] + wire::be16_bytes(n)[1] == n,
{
}

/// Six bytes are an IPv4 address and its port, octet by octet.
pub proof fn lemma_ipv4_from_bytes(buf: Seq<u8>)
    requires
        buf.len() == 6,
    ensures
        wire::ipv4_of(buf) is V4,
        wire::ipv4_of(buf)->octets == seq![buf[0], buf[1], buf[2], buf[3]],
        wire::ipv4_of(buf)->V4_port == 256 * buf[4] + buf[5],
{
    assert(wire::ipv4_of(buf)->octets =~= seq![buf[0], buf[1], buf[2], buf[3]]);
}

/// Eighteen bytes are an IPv6 address and its port, segment by segment.
pub proof fn lemma_ipv6_from_bytes(buf: Seq<u8>)
    requires
        buf.len() == 18,
    ensures
        wire::ipv6_of(buf) is V6,
        wire::ipv6_of(buf)->segments.len() == 8,
        forall|i: int|
            0 <= i < 8 ==> #[trigger] wire::ipv6_of(buf)->segments[i] == 256 * buf[2 * i] + buf[2
                * i + 1],
        wire::ipv6_of(buf)->V6_port == 256 * buf[16] + buf[17],
        wire::ipv6_of(buf)->flowinfo == 0,
        wire::ipv6_of(buf)->scope_id == 0,
{
}

/// A reply that names an IPv4 address, byte by byte.
pub proof fn lemma_reply_with_ipv4(code: u8, octets: Seq<u8>, port: u16)
    requires
        octets.len() == 4,
    ensures
        ({
            let bytes = wire::reply_bytes(code, AddrView::V4 { octets, port });
            &&& bytes.take(8) == seq![
                5u8,
                code,
                0u8,
                1u8,
                octets[0],
                octets[1],
                octets[2],
                octets[3],
            ]
            &&& bytes.len() == 10
            &&& 256 * bytes[8] + bytes[9] == port
        }),
{
    let bytes = wire::reply_bytes(code, AddrView::V4 { octets, port });
    assert(bytes.take(8) =~= seq![
        5u8,
        code,
        0u8,
        1u8,
        octets[0],
        octets[1],
        octets[2],
        octets[3],
    ]);
}

/// A reply that names an IPv6 address, byte by byte.
pub proof fn lemma_reply_with_ipv6(
    code: u8,
    segments: Seq<u16>,
    port: u16,
    flowinfo: u32,
    scope_id: u32,
)
    requires
        segments.len() == 8,
    ensures
        ({
            let bytes = wire::reply_bytes(
                code,
                AddrView::V6 { segments, port, flowinfo, scope_id },
            );
            &&& bytes.take(4) == seq![5u8, code, 0u8, 4u8]
            &&& bytes.len() == 22
            &&& forall|i: int|
                0 <= i < 8 ==> 256 * bytes[4 + 2 * i] + bytes[5 + 2 * i] == #[trigger] segments[i]
            &&& 256 * bytes[20] + bytes[21] == port
        }),
{
    let bytes = wire::reply_bytes(code, AddrView::V6 { segments, port, flowinfo, scope_id });
    assert(bytes.take(4) =~= seq![5u8, code, 0u8, 4u8]);
    assert forall|i: int| 0 <= i < 8 implies 256 * bytes[4 + 2 * i] + bytes[5 + 2 * i]
        == #[trigger] segments[i] by {
        assert((2 * i) / 2 == i && (2 * i + 1) / 2 == i);
        assert(bytes[4 + 2 * i] == wire::segment_bytes(segments)[2 * i]);
        assert(bytes[5 + 2 * i] == wire::segment_bytes(segments)[2 * i + 1]);
    }
}

/// What is looked up for a hostname and the two bytes of a port is the text of
/// the hostname, a colon, and the number of the port in decimal notation.
pub proof fn lemma_lookup_text(buf: Seq<u8>)
    requires
        buf.len() >= 2,
        vstd::utf8::valid_utf8(buf.take(buf.len() - 2)),
    ensures
        resolve::lookup(buf) is Ok,
        ({
            let host = vstd::utf8::decode_utf8(buf.take(buf.len() - 2));
            let name = resolve::lookup(buf)->Ok_0;
            let colon = host.len() as int;
            &&& name.len() > colon + 1
            &&& name.take(colon) == host
            &&& name[colon] == ':'
            &&& forall|i: int| colon < i < name.len() ==> '0' <= #[trigger] name[i] <= '9'
            &&& name.skip(colon + 1).fold_left(
                0int,
                |value: int, c: char| 10 * value + (c as int - '0' as int),
            ) == 256 * buf[buf.len() - 2] + buf[buf.len() - 1]
            &&& name[colon + 1] == '0' ==> name.len() == colon + 2
        }),
{
    reveal_strlit(":");
    let host = vstd::utf8::decode_utf8(buf.take(buf.len() - 2));
    let name = resolve::lookup(buf)->Ok_0;
    let colon = host.len() as int;
    let port = (256 * buf[buf.len() - 2] + buf[buf.len() - 1]) as nat;
    text::lemma_decimal_notation(port);
    assert(name.take(colon) =~= host);
    assert(name.skip(colon + 1) =~= text::decimal(port));
    assert forall|i: int| colon < i < name.len() implies '0' <= #[trigger] name[i] <= '9' by {
        assert(name[i] == text::decimal(port)[i - colon - 1]);
    }
    assert(name[colon + 1] == text::decimal(port)[0]);
}

/// Nothing is looked up for a hostname that is not valid UTF-8.
pub proof fn lemma_lookup_error(buf: Seq<u8>)
    requires
        buf.len() >= 2,
        !vstd::utf8::valid_utf8(buf.take(buf.len() - 2)),
    ensures
        resolve::lookup(buf) == Err::<Seq<char>, ErrorView>(
            ErrorView {
                kind: ErrorKind::Other,
                message: "hostname buffer provided was not valid utf-8"@,
            },
        ),
{
}

/// The first address found is taken, of whichever family, and finding none is
/// an error.
pub proof fn lemma_first_of_found(addrs: Seq<AddrView>)
    ensures
        addrs.len() > 0 ==> resolve::first_found(addrs) == Ok::<AddrView, ErrorView>(addrs[0]),
        addrs.len() == 0 ==> resolve::first_found(addrs) == Err::<AddrView, ErrorView>(
            ErrorView {
                kind: ErrorKind::Other,
                message: "no addresses found during name resolution"@,
            },
        ),
{
}

/// The line on a connection that was relayed names the amount that went to the
/// client, then the amount that came from it, then the client; the line on an
/// error names the client, then the error.
pub proof fn lemma_report_line(to_client: u64, to_server: u64, e: ErrorView, peer: Seq<char>)
    ensures
        report::report_text(Ok((to_client, to_server)), peer) == "proxied "@ + text::decimal(
            to_client as nat,
        ) + "/"@ + text::decimal(to_server as nat) + " bytes for "@ + peer,
        report::report_text(Err(e), peer) == "error for "@ + peer + ": "@ + e.message,
{
}

} // verus!
