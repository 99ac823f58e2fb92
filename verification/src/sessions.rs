//! Whole sessions, from the acceptance of a connection to its end: what the
//! client sends and what happens outside, against what is done for it.
use crate::addr::AddrView;
use crate::client;
use crate::client::{ActionView, EventView, StateView};
use crate::steps;
use crate::values;
use crate::wire;
use vstd::prelude::*;

verus! {

/// A client that offers method 0 among others and asks, in a request of type 1,
/// for four octets and a port, is connected to that very address, told so, and
/// relayed, and its session finishes with the amounts of the relay.
pub proof fn lemma_session_with_ipv4(
    methods: Seq<u8>,
    reserved: u8,
    buf: Seq<u8>,
    octets: Seq<u8>,
    port: u16,
    a: u64,
    b: u64,
)
    requires
        methods.len() <= 255,
        exists|i: int| 0 <= i < methods.len() && methods[i] == 0,
        buf.len() == 6,
        octets.len() == 4,
    ensures
        ({
            let s0 = client::next(StateView::Idle, EventView::Accepted);
            let s1 = client::next(s0.0, EventView::Read(seq![5u8]));
            let s2 = client::next(s1.0, EventView::TimerStarted);
            let s3 = client::next(s2.0, EventView::Read(seq![methods.len() as u8]));
            let s4 = client::next(s3.0, EventView::Read(methods));
            let s5 = client::next(s4.0, EventView::Written);
            let s6 = client::next(s5.0, EventView::Read(seq![5u8]));
            let s7 = client::next(s6.0, EventView::Read(seq![1u8]));
            let s8 = client::next(s7.0, EventView::Read(seq![reserved]));
            let s9 = client::next(s8.0, EventView::Read(seq![1u8]));
            let s10 = client::next(s9.0, EventView::Read(buf));
            let local = AddrView::V4 { octets, port };
            let s11 = client::next(s10.0, EventView::Connected(Some(local)));
            let s12 = client::next(s11.0, EventView::Written);
            let s13 = client::next(s12.0, EventView::Relayed(a, b));
            let addr = s10.1->Connect_0;
            let reply = s11.1->Write_0;
            &&& s0.1 == ActionView::Read(1)
            &&& s1.1 == ActionView::StartTimer(10)
            &&& s2.1 == ActionView::Read(1)
            &&& s3.1 == ActionView::Read(methods.len())
            &&& s4.1 == ActionView::Write(seq![5u8, 0u8])
            &&& s5.1 == ActionView::Read(1)
            &&& s6.1 == ActionView::Read(1)
            &&& s7.1 == ActionView::Read(1)
            &&& s8.1 == ActionView::Read(1)
            &&& s9.1 == ActionView::Read(6)
            &&& s10.1 is Connect
            &&& addr is V4
            &&& addr->octets == seq![buf[0], buf[1], buf[2], buf[3]]
            &&& addr->V4_port == 256 * buf[4] + buf[5]
            &&& s11.1 is Write
            &&& reply.len() == 10
            &&& reply.take(4) == seq![5u8, 0u8, 0u8, 1u8]
            &&& forall|i: int| 0 <= i < 4 ==> reply[4 + i] == #[trigger] octets[i]
            &&& 256 * reply[8] + reply[9] == port
            &&& s12.1 is Relay
            &&& s13.1 == ActionView::Finish(a, b)
        }),
{
    steps::lemma_after_methods(methods.len() as u8, methods);
    steps::lemma_after_ipv4(buf);
    values::lemma_reply_with_ipv4(0, octets, port);
    let local = AddrView::V4 { octets, port };
    let reply = wire::reply_bytes(0, local);
    assert(reply.take(4) =~= reply.take(8).take(4));
    assert(seq![5u8, 0u8, 0u8, 1u8, octets[0], octets[1], octets[2], octets[3]].take(4) =~= seq![
        5u8,
        0u8,
        0u8,
        1u8,
    ]);
}

/// A client that offers method 0 among others and asks, in a request of type 4,
/// for sixteen bytes of an address and a port, is connected to that very
/// address, told so, and relayed, and its session finishes with the amounts of
/// the relay.
pub proof fn lemma_session_with_ipv6(
    methods: Seq<u8>,
    reserved: u8,
    buf: Seq<u8>,
    segments: Seq<u16>,
    port: u16,
    a: u64,
    b: u64,
)
    requires
        methods.len() <= 255,
        exists|i: int| 0 <= i < methods.len() && methods[i] == 0,
        buf.len() == 18,
        segments.len() == 8,
    ensures
        ({
            let s0 = client::next(StateView::Idle, EventView::Accepted);
            let s1 = client::next(s0.0, EventView::Read(seq![5u8]));
            let s2 = client::next(s1.0, EventView::TimerStarted);
            let s3 = client::next(s2.0, EventView::Read(seq![methods.len() as u8]));
            let s4 = client::next(s3.0, EventView::Read(methods));
            let s5 = client::next(s4.0, EventView::Written);
            let s6 = client::next(s5.0, EventView::Read(seq![5u8]));
            let s7 = client::next(s6.0, EventView::Read(seq![1u8]));
            let s8 = client::next(s7.0, EventView::Read(seq![reserved]));
            let s9 = client::next(s8.0, EventView::Read(seq![4u8]));
            let s10 = client::next(s9.0, EventView::Read(buf));
            let local = AddrView::V6 { segments, port, flowinfo: 0, scope_id: 0 };
            let s11 = client::next(s10.0, EventView::Connected(Some(local)));
            let s12 = client::next(s11.0, EventView::Written);
            let s13 = client::next(s12.0, EventView::Relayed(a, b));
            let addr = s10.1->Connect_0;
            let reply = s11.1->Write_0;
            &&& s0.1 == ActionView::Read(1)
            &&& s1.1 == ActionView::StartTimer(10)
            &&& s2.1 == ActionView::Read(1)
            &&& s3.1 == ActionView::Read(methods.len())
            &&& s4.1 == ActionView::Write(seq![5u8, 0u8])
            &&& s5.1 == ActionView::Read(1)
            &&& s6.1 == ActionView::Read(1)
            &&& s7.1 == ActionView::Read(1)
            &&& s8.1 == ActionView::Read(1)
            &&& s9.1 == ActionView::Read(18)
            &&& s10.1 is Connect
            &&& addr is V6
            &&& addr->segments.len() == 8
            &&& forall|i: int|
                0 <= i < 8 ==> #[trigger] addr->segments[i] == 256 * buf[2 * i] + buf[2 * i + 1]
            &&& addr->V6_port == 256 * buf[16] + buf[17]
            &&& addr->flowinfo == 0
            &&& addr->scope_id == 0
            &&& s11.1 is Write
            &&& reply.len() == 22
            &&& reply.take(4) == seq![5u8, 0u8, 0u8, 4u8]
            &&& forall|i: int|
                0 <= i < 8 ==> 256 * reply[4 + 2 * i] + reply[5 + 2 * i] == #[trigger] segments[i]
            &&& 256 * reply[20] + reply[21] == port
            &&& s12.1 is Relay
            &&& s13.1 == ActionView::Finish(a, b)
        }),
{
    steps::lemma_after_methods(methods.len() as u8, methods);
    steps::lemma_after_ipv6(buf);
    values::lemma_reply_with_ipv6(0, segments, port, 0, 0);
}

/// A client that offers method 0 among others and asks, in a request of type 3,
/// for a host by its name, has the name looked up, is connected to the first
/// address found, of whichever family, and relayed, and its session finishes
/// with the amounts of the relay.
pub proof fn lemma_session_with_name(
    methods: Seq<u8>,
    reserved: u8,
    host: Seq<u8>,
    hi: u8,
    lo: u8,
    addrs: Seq<AddrView>,
    local: Option<AddrView>,
    a: u64,
    b: u64,
)
    requires
        methods.len() <= 255,
        exists|i: int| 0 <= i < methods.len() && methods[i] == 0,
        host.len() <= 255,
        vstd::utf8::valid_utf8(host),
        addrs.len() > 0,
    ensures
        ({
            let s0 = client::next(StateView::Idle, EventView::Accepted);
            let s1 = client::next(s0.0, EventView::Read(seq![5u8]));
            let s2 = client::next(s1.0, EventView::TimerStarted);
            let s3 = client::next(s2.0, EventView::Read(seq![methods.len() as u8]));
            let s4 = client::next(s3.0, EventView::Read(methods));
            let s5 = client::next(s4.0, EventView::Written);
            let s6 = client::next(s5.0, EventView::Read(seq![5u8]));
            let s7 = client::next(s6.0, EventView::Read(seq![1u8]));
            let s8 = client::next(s7.0, EventView::Read(seq![reserved]));
            let s9 = client::next(s8.0, EventView::Read(seq![3u8]));
            let s10 = client::next(s9.0, EventView::Read(seq![host.len() as u8]));
            let s11 = client::next(s10.0, EventView::Read(host + seq![hi, lo]));
            let s12 = client::next(s11.0, EventView::Resolved(addrs));
            let s13 = client::next(s12.0, EventView::Connected(local));
            let s14 = client::next(s13.0, EventView::Written);
            let s15 = client::next(s14.0, EventView::Relayed(a, b));
            let name = s11.1->Resolve_0;
            let colon = vstd::utf8::decode_utf8(host).len() as int;
            &&& s0.1 == ActionView::Read(1)
            &&& s1.1 == ActionView::StartTimer(10)
            &&& s2.1 == ActionView::Read(1)
            &&& s3.1 == ActionView::Read(methods.len())
            &&& s4.1 == ActionView::Write(seq![5u8, 0u8])
            &&& s5.1 == ActionView::Read(1)
            &&& s6.1 == ActionView::Read(1)
            &&& s7.1 == ActionView::Read(1)
            &&& s8.1 == ActionView::Read(1)
            &&& s9.1 == ActionView::Read(1)
            &&& s10.1 == ActionView::Read(host.len() + 2)
            &&& s11.1 is Resolve
            &&& name.len() > colon + 1
            &&& name.take(colon) == vstd::utf8::decode_utf8(host)
            &&& name[colon] == ':'
            &&& forall|i: int| colon < i < name.len() ==> '0' <= #[trigger] name[i] <= '9'
            &&& name.skip(colon + 1).fold_left(
                0int,
                |value: int, c: char| 10 * value + (c as int - '0' as int),
            ) == 256 * hi + lo
            &&& s12.1 == ActionView::Connect(addrs[0])
            &&& s13.1 is Write
            &&& s13.1->Write_0[0] == 5
            &&& s13.1->Write_0[1] == 0
            &&& s14.1 is Relay
            &&& s15.1 == ActionView::Finish(a, b)
        }),
{
    steps::lemma_after_methods(methods.len() as u8, methods);
    let buf = host + seq![hi, lo];
    assert(buf.take(host.len() as int) =~= host);
    steps::lemma_after_domain(host.len() as u8, buf);
}

} // verus!
