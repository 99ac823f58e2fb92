//! What holds of the protocol as a whole.
use crate::addr::AddrView;
use crate::client;
use crate::client::{ActionView, EventView, StateView};
use crate::error::{ErrorKind, ErrorView};
use crate::resolve;
use crate::text;
use crate::v5;
use crate::wire;
use vstd::prelude::*;

verus! {

/// How far a connection is from its end.
pub open spec fn rank(s: StateView) -> nat {
    match s {
        StateView::Idle => 16,
        StateView::Version => 15,
        StateView::Timer => 14,
        StateView::MethodCount => 13,
        StateView::Methods(_) => 12,
        StateView::Acknowledging => 11,
        StateView::RequestVersion => 10,
        StateView::Command => 9,
        StateView::Reserved => 8,
        StateView::AddressType => 7,
        StateView::DomainLength => 6,
        StateView::Domain(_) => 5,
        StateView::Ipv4 => 5,
        StateView::Ipv6 => 5,
        StateView::Resolving => 4,
        StateView::Connecting(_) => 3,
        StateView::Replying(_) => 2,
        StateView::Relaying => 1,
        StateView::Done => 0,
    }
}

/// Each event brings a connection closer to its end.
pub proof fn lemma_progress(s: StateView, event: EventView)
    requires
        client::expected(s, event),
    ensures
        rank(client::next(s, event).0) < rank(s),
{
}

/// A connection waits for what it has asked for: for the outcome of the action
/// that it handed out, and for nothing once it has ended.
pub proof fn lemma_waits_for_action(s: StateView, event: EventView)
    requires
        client::expected(s, event),
    ensures
        ({
            let (after, action) = client::next(s, event);
            match action {
                ActionView::StartTimer(secs) => after is Timer
                    && secs == client::HANDSHAKE_TIMEOUT_SECS,
                ActionView::Read(n) => after.read_len() == Some(n),
                ActionView::Write(_) => after is Acknowledging || after is Replying,
                ActionView::Resolve(_) => after is Resolving,
                ActionView::Connect(addr) => after == StateView::Connecting(addr),
                ActionView::Relay => after is Relaying,
                ActionView::Finish(_, _) => after is Done,
                ActionView::Fail(_) => after is Done,
            }
        }),
{
}

/// No read is for more than a hostname of 255 bytes and its port.
pub proof fn lemma_reads_are_small(s: StateView, event: EventView)
    requires
        client::expected(s, event),
    ensures
        client::next(s, event).1 matches ActionView::Read(n) ==> n <= 257,
{
}

/// An address as far as the wire carries it: without flow information and
/// scope.
pub open spec fn on_wire(addr: AddrView) -> AddrView {
    match addr {
        AddrView::V4 { .. } => addr,
        AddrView::V6 { segments, port, .. } => AddrView::V6 {
            segments,
            port,
            flowinfo: 0,
            scope_id: 0,
        },
    }
}

/// The address that bytes stand for, by the type that comes first.
pub open spec fn address_of(bytes: Seq<u8>) -> AddrView {
    if bytes[0] == v5::ATYP_IPV4 {
        wire::ipv4_of(bytes.skip(1))
    } else {
        wire::ipv6_of(bytes.skip(1))
    }
}

/// A number is read back from the two bytes that it is written in, and two
/// bytes are what the number that they stand for is written in.
pub proof fn lemma_be16_round_trip(n: u16, hi: u8, lo: u8)
    ensures
        wire::be16(wire::be16_bytes(n)[0], wire::be16_bytes(n)[1]) == n,
        wire::be16_bytes(wire::be16(hi, lo)) == seq![hi, lo],
{
    assert(wire::be16_bytes(wire::be16(hi, lo)) =~= seq![hi, lo]);
}

/// What is read as an IPv4 address is written in the same bytes.
pub proof fn lemma_ipv4_bytes(buf: Seq<u8>)
    requires
        buf.len() == 6,
    ensures
        wire::address_bytes(wire::ipv4_of(buf)) == seq![v5::ATYP_IPV4] + buf,
{
    lemma_be16_round_trip(0, buf[4], buf[5]);
    assert(wire::address_bytes(wire::ipv4_of(buf)) =~= seq![v5::ATYP_IPV4] + buf);
}

/// What is read as an IPv6 address is written in the same bytes.
pub proof fn lemma_ipv6_bytes(buf: Seq<u8>)
    requires
        buf.len() == 18,
    ensures
        wire::address_bytes(wire::ipv6_of(buf)) == seq![v5::ATYP_IPV6] + buf,
{
    let written = wire::segment_bytes(wire::ipv6_of(buf)->segments);
    assert forall|i: int| 0 <= i < 16 implies #[trigger] written[i] == buf[i] by {
        let k = i / 2;
        lemma_be16_round_trip(0, buf[2 * k], buf[2 * k + 1]);
        assert(wire::ipv6_of(buf)->segments[k] == wire::be16(buf[2 * k], buf[2 * k + 1]));
    }
    lemma_be16_round_trip(0, buf[16], buf[17]);
    assert(wire::address_bytes(wire::ipv6_of(buf)) =~= seq![v5::ATYP_IPV6] + buf);
}

/// An address is read back from the bytes that it is written in, but for the
/// flow information and the scope.
pub proof fn lemma_address_round_trip(addr: AddrView)
    requires
        addr.well_formed(),
    ensures
        address_of(wire::address_bytes(addr)) == on_wire(addr),
{
    let buf = wire::address_bytes(addr).skip(1);
    lemma_be16_round_trip(addr.port(), 0, 0);
    match addr {
        AddrView::V4 { octets, port } => {
            assert(buf =~= octets + wire::be16_bytes(port));
            assert(wire::ipv4_of(buf)->octets =~= octets);
        },
        AddrView::V6 { segments, port, .. } => {
            assert(buf =~= wire::segment_bytes(segments) + wire::be16_bytes(port));
            assert forall|i: int| 0 <= i < 8 implies #[trigger] wire::ipv6_of(buf)->segments[i]
                == segments[i] by {
                lemma_be16_round_trip(segments[i], 0, 0);
                assert((2 * i) / 2 == i && (2 * i + 1) / 2 == i);
                assert(buf[2 * i] == wire::be16_bytes(segments[i])[0]);
                assert(buf[2 * i + 1] == wire::be16_bytes(segments[i])[1]);
            }
            assert(wire::ipv6_of(buf)->segments =~= segments);
        },
    }
}

/// A reply takes 10 bytes with an IPv4 address and 22 with an IPv6 address.
pub proof fn lemma_reply_length(code: u8, bound: AddrView)
    requires
        bound.well_formed(),
    ensures
        wire::reply_bytes(code, bound).len() == if bound is V4 {
            10nat
        } else {
            22nat
        },
{
}

/// A client can tell from a reply what its code is and which address it names.
pub proof fn lemma_reply_unambiguous(code1: u8, bound1: AddrView, code2: u8, bound2: AddrView)
    requires
        bound1.well_formed(),
        bound2.well_formed(),
        wire::reply_bytes(code1, bound1) == wire::reply_bytes(code2, bound2),
    ensures
        code1 == code2,
        on_wire(bound1) == on_wire(bound2),
{
    let r1 = wire::reply_bytes(code1, bound1);
    let r2 = wire::reply_bytes(code2, bound2);
    assert(r1[1] == code1 && r2[1] == code2);
    assert(r1.skip(3) =~= wire::address_bytes(bound1));
    assert(r2.skip(3) =~= wire::address_bytes(bound2));
    lemma_address_round_trip(bound1);
    lemma_address_round_trip(bound2);
}

/// No two destinations are looked up under the same text: host and port can be
/// told from it.
pub proof fn lemma_host_port_unambiguous(
    host1: Seq<char>,
    port1: u16,
    host2: Seq<char>,
    port2: u16,
)
    requires
        resolve::host_port(host1, port1) == resolve::host_port(host2, port2),
    ensures
        host1 == host2,
        port1 == port2,
{
    reveal_strlit(":");
    let text1 = resolve::host_port(host1, port1);
    let text2 = resolve::host_port(host2, port2);
    let digits1 = text::decimal(port1 as nat);
    let digits2 = text::decimal(port2 as nat);
    text::lemma_decimal_value(port1 as nat);
    text::lemma_decimal_value(port2 as nat);
    // The colon before the digits is the last one in the text.
    assert(text1.len() == host1.len() + 1 + digits1.len());
    assert(text2.len() == host2.len() + 1 + digits2.len());
    assert(text1[host1.len() as int] == ':');
    assert(text2[host2.len() as int] == ':');
    if host1.len() < host2.len() {
        assert(text1[host2.len() as int] == digits1[host2.len() - host1.len() - 1]);
    }
    if host2.len() < host1.len() {
        assert(text2[host1.len() as int] == digits2[host1.len() - host2.len() - 1]);
    }
    assert(text1.take(host1.len() as int) =~= host1);
    assert(text2.take(host2.len() as int) =~= host2);
    assert(text1.skip(host1.len() as int + 1) =~= digits1);
    assert(text2.skip(host2.len() as int + 1) =~= digits2);
}

/// A client that asks for a connection which is then not made is told so, with
/// the code for a refused connection or the one for any other failure and with
/// the address that it asked for, before the connection is given up.
pub proof fn lemma_failed_connect_is_answered(target: AddrView, e: ErrorView)
    ensures
        ({
            let (after, action) = client::next(
                StateView::Connecting(target),
                EventView::ConnectFailed(e),
            );
            let code = if e.kind == ErrorKind::ConnectionRefused {
                v5::REP_REFUSED
            } else {
                v5::REP_FAILURE
            };
            &&& action == ActionView::Write(wire::reply_bytes(code, target))
            &&& client::next(after, EventView::Written) == (StateView::Done, ActionView::Fail(e))
        }),
{
}

} // verus!
