//! What each event leads to, whatever it carries.
use crate::addr::AddrView;
use crate::client;
use crate::client::{ActionView, EventView, StateView};
use crate::error::{ErrorKind, ErrorView};
use crate::text;
use crate::values;
use crate::wire;
use vstd::prelude::*;

verus! {

/// A connection that waits for bytes takes exactly as many as the protocol has
/// at that point, and one that does not takes none.
pub proof fn lemma_bytes_waited_for(s: StateView, buf: Seq<u8>)
    ensures
        client::expected(s, EventView::Read(buf)) <==> match s {
            StateView::Version
            | StateView::MethodCount
            | StateView::RequestVersion
            | StateView::Command
            | StateView::Reserved
            | StateView::AddressType
            | StateView::DomainLength => buf.len() == 1,
            StateView::Methods(n) => buf.len() == n,
            StateView::Ipv4 => buf.len() == 6,
            StateView::Ipv6 => buf.len() == 18,
            StateView::Domain(n) => buf.len() == n + 2,
            _ => false,
        },
{
}

/// Each other event is waited for in just the states that can bring it.
pub proof fn lemma_events_waited_for(
    s: StateView,
    addrs: Seq<AddrView>,
    local: Option<AddrView>,
    e: ErrorView,
    a: u64,
    b: u64,
)
    ensures
        client::expected(s, EventView::Accepted) <==> s is Idle,
        client::expected(s, EventView::TimerStarted) <==> s is Timer,
        client::expected(s, EventView::Written) <==> s is Acknowledging || s is Replying,
        client::expected(s, EventView::Resolved(addrs)) <==> s is Resolving,
        client::expected(s, EventView::Connected(local)) <==> s is Connecting,
        client::expected(s, EventView::ConnectFailed(e)) <==> s is Connecting,
        client::expected(s, EventView::Relayed(a, b)) <==> s is Relaying,
        client::expected(s, EventView::TimedOut) <==> !(s is Idle) && !(s is Version) && !(
        s is Timer) && !(s is Relaying) && !(s is Done),
        client::expected(s, EventView::Failed(e)) <==> !(s is Idle) && !(s is Timer) && !(
        s is Done),
{
}

/// A connection that was accepted reads one byte.
pub proof fn lemma_after_acceptance()
    ensures
        client::next(StateView::Idle, EventView::Accepted) == (
            StateView::Version,
            ActionView::Read(1),
        ),
{
}

/// The first byte: 5 starts the timer of ten seconds, and anything else ends
/// the connection, with an error of its own for 4.
pub proof fn lemma_after_version(buf: Seq<u8>)
    requires
        buf.len() == 1,
    ensures
        ({
            let (after, action) = client::next(StateView::Version, EventView::Read(buf));
            &&& buf[0] == 5 ==> after is Timer && action == ActionView::StartTimer(10)
            &&& buf[0] == 4 ==> after is Done && action == ActionView::Fail(
                ErrorView { kind: ErrorKind::Other, message: "unimplemented"@ },
            )
            &&& buf[0] != 4 && buf[0] != 5 ==> after is Done && action == ActionView::Fail(
                ErrorView { kind: ErrorKind::Other, message: "unknown version"@ },
            )
        }),
{
}

/// Once the timer is running, the number of methods is read, and then that many
/// methods.
pub proof fn lemma_after_method_count(buf: Seq<u8>)
    requires
        buf.len() == 1,
    ensures
        client::next(StateView::Timer, EventView::TimerStarted) == (
            StateView::MethodCount,
            ActionView::Read(1),
        ),
        client::next(StateView::MethodCount, EventView::Read(buf)) == (
            StateView::Methods(buf[0]),
            ActionView::Read(buf[0] as nat),
        ),
{
}

/// Methods with a 0 anywhere among them are answered with the bytes 5 and 0,
/// after which the request is read; without one, the connection ends.
pub proof fn lemma_after_methods(n: u8, buf: Seq<u8>)
    requires
        buf.len() == n,
    ensures
        ({
            let (after, action) = client::next(StateView::Methods(n), EventView::Read(buf));
            &&& (exists|i: int| 0 <= i < buf.len() && buf[i] == 0) ==> {
                &&& action == ActionView::Write(seq![5u8, 0u8])
                &&& client::expected(after, EventView::Written)
                &&& client::next(after, EventView::Written) == (
                    StateView::RequestVersion,
                    ActionView::Read(1),
                )
            }
            &&& (forall|i: int| 0 <= i < buf.len() ==> buf[i] != 0) ==> after is Done && action
                == ActionView::Fail(
                ErrorView { kind: ErrorKind::Other, message: "no supported method given"@ },
            )
        }),
{
}

/// The start of a request: a 5, a 1 and any byte are read one by one and lead
/// to the address type; another version or command ends the connection.
pub proof fn lemma_after_request_start(buf: Seq<u8>)
    requires
        buf.len() == 1,
    ensures
        ({
            let (after, action) = client::next(StateView::RequestVersion, EventView::Read(buf));
            if buf[0] == 5 {
                after is Command && action == ActionView::Read(1)
            } else {
                after is Done && action == ActionView::Fail(
                    ErrorView {
                        kind: ErrorKind::Other,
                        message: "didn't confirm with v5 version"@,
                    },
                )
            }
        }),
        ({
            let (after, action) = client::next(StateView::Command, EventView::Read(buf));
            if buf[0] == 1 {
                after is Reserved && action == ActionView::Read(1)
            } else {
                after is Done && action == ActionView::Fail(
                    ErrorView { kind: ErrorKind::Other, message: "unsupported command"@ },
                )
            }
        }),
        client::next(StateView::Reserved, EventView::Read(buf)) == (
            StateView::AddressType,
            ActionView::Read(1),
        ),
{
}

/// The address type says how much is read next: 6 bytes for 1, 18 for 4, and
/// for 3 a length and then that many bytes and two. Any other type ends the
/// connection, with an error that names it in decimal notation.
pub proof fn lemma_after_address_type(buf: Seq<u8>)
    requires
        buf.len() == 1,
    ensures
        ({
            let (after, action) = client::next(StateView::AddressType, EventView::Read(buf));
            if buf[0] == 1 {
                after is Ipv4 && action == ActionView::Read(6)
            } else if buf[0] == 4 {
                after is Ipv6 && action == ActionView::Read(18)
            } else if buf[0] == 3 {
                after is DomainLength && action == ActionView::Read(1)
            } else {
                after is Done && action == ActionView::Fail(
                    ErrorView {
                        kind: ErrorKind::Other,
                        message: "unknown ATYP received: "@ + text::decimal(buf[0] as nat),
                    },
                )
            }
        }),
        client::next(StateView::DomainLength, EventView::Read(buf)) == (
            StateView::Domain(buf[0]),
            ActionView::Read((buf[0] + 2) as nat),
        ),
{
}

/// Four octets and a port lead to a connection to those octets, each in its
/// place, at the port with the more significant byte first.
pub proof fn lemma_after_ipv4(buf: Seq<u8>)
    requires
        buf.len() == 6,
    ensures
        ({
            let (after, action) = client::next(StateView::Ipv4, EventView::Read(buf));
            let addr = action->Connect_0;
            &&& action is Connect
            &&& after == StateView::Connecting(addr)
            &&& addr is V4
            &&& addr->octets == seq![buf[0], buf[1], buf[2], buf[3]]
            &&& addr->V4_port == 256 * buf[4] + buf[5]
        }),
{
    values::lemma_ipv4_from_bytes(buf);
}

/// Sixteen bytes and a port lead to a connection to the eight segments that
/// they make up, each in its place and with the more significant byte first.
pub proof fn lemma_after_ipv6(buf: Seq<u8>)
    requires
        buf.len() == 18,
    ensures
        ({
            let (after, action) = client::next(StateView::Ipv6, EventView::Read(buf));
            let addr = action->Connect_0;
            &&& action is Connect
            &&& after == StateView::Connecting(addr)
            &&& addr is V6
            &&& addr->segments.len() == 8
            &&& forall|i: int|
                0 <= i < 8 ==> #[trigger] addr->segments[i] == 256 * buf[2 * i] + buf[2 * i + 1]
            &&& addr->V6_port == 256 * buf[16] + buf[17]
            &&& addr->flowinfo == 0
            &&& addr->scope_id == 0
        }),
{
    values::lemma_ipv6_from_bytes(buf);
}

/// A hostname and a port lead to a lookup of the hostname's text, a colon, and
/// the port in decimal notation; and to an error where the hostname is not
/// valid UTF-8.
pub proof fn lemma_after_domain(n: u8, buf: Seq<u8>)
    requires
        buf.len() == n + 2,
    ensures
        ({
            let (after, action) = client::next(StateView::Domain(n), EventView::Read(buf));
            if vstd::utf8::valid_utf8(buf.take(n as int)) {
                let host = vstd::utf8::decode_utf8(buf.take(n as int));
                let name = action->Resolve_0;
                let colon = host.len() as int;
                &&& after is Resolving
                &&& action is Resolve
                &&& name.len() > colon + 1
                &&& name.take(colon) == host
                &&& name[colon] == ':'
                &&& forall|i: int| colon < i < name.len() ==> '0' <= #[trigger] name[i] <= '9'
                &&& name.skip(colon + 1).fold_left(
                    0int,
                    |value: int, c: char| 10 * value + (c as int - '0' as int),
                ) == 256 * buf[n as int] + buf[n + 1]
                &&& name[colon + 1] == '0' ==> name.len() == colon + 2
            } else {
                after is Done && action == ActionView::Fail(
                    ErrorView {
                        kind: ErrorKind::Other,
                        message: "hostname buffer provided was not valid utf-8"@,
                    },
                )
            }
        }),
{
    if vstd::utf8::valid_utf8(buf.take(n as int)) {
        values::lemma_lookup_text(buf);
    } else {
        values::lemma_lookup_error(buf);
    }
}

/// A lookup that found addresses, of either family, leads to a connection to
/// the first of them; one that found none ends the connection.
pub proof fn lemma_after_lookup(addrs: Seq<AddrView>)
    ensures
        addrs.len() > 0 ==> client::next(StateView::Resolving, EventView::Resolved(addrs)) == (
            StateView::Connecting(addrs[0]),
            ActionView::Connect(addrs[0]),
        ),
        addrs.len() == 0 ==> client::next(StateView::Resolving, EventView::Resolved(addrs)) == (
            StateView::Done,
            ActionView::Fail(
                ErrorView {
                    kind: ErrorKind::Other,
                    message: "no addresses found during name resolution"@,
                },
            ),
        ),
{
}

/// Once a connection was made, whatever the target and whether or not its local
/// address is known, the reply starts with 5, the code 0 and 0, names the local
/// address, or the target where that is not known, and is followed by the
/// relay, whose end finishes the connection with the amounts of the relay.
pub proof fn lemma_after_success(target: AddrView, local: Option<AddrView>, a: u64, b: u64)
    ensures
        ({
            let (replying, action) = client::next(
                StateView::Connecting(target),
                EventView::Connected(local),
            );
            let bound = if local is Some {
                local->Some_0
            } else {
                target
            };
            let (relaying, next_action) = client::next(replying, EventView::Written);
            &&& action is Write
            &&& action->Write_0[0] == 5
            &&& action->Write_0[1] == 0
            &&& action->Write_0[2] == 0
            &&& action->Write_0 == wire::reply_bytes(0, bound)
            &&& client::expected(replying, EventView::Written)
            &&& next_action is Relay
            &&& client::expected(relaying, EventView::Relayed(a, b))
            &&& client::next(relaying, EventView::Relayed(a, b)) == (
                StateView::Done,
                ActionView::Finish(a, b),
            )
        }),
{
}

/// Once a connection was not made, whatever the target, the reply starts with
/// 5, the code 5 for a refused connection or 1 for any other failure, and 0,
/// names the target, and is followed by the end of the connection, with the
/// very error that connecting failed with.
pub proof fn lemma_after_failure(target: AddrView, e: ErrorView)
    ensures
        ({
            let (replying, action) = client::next(
                StateView::Connecting(target),
                EventView::ConnectFailed(e),
            );
            let code: u8 = if e.kind is ConnectionRefused {
                5
            } else {
                1
            };
            &&& action is Write
            &&& action->Write_0[0] == 5
            &&& action->Write_0[1] == code
            &&& action->Write_0[2] == 0
            &&& action->Write_0 == wire::reply_bytes(code, target)
            &&& client::expected(replying, EventView::Written)
            &&& client::next(replying, EventView::Written) == (
                StateView::Done,
                ActionView::Fail(e),
            )
        }),
{
}

/// The end of a relay finishes the connection with the amounts of the relay,
/// whatever they are.
pub proof fn lemma_after_relay(a: u64, b: u64)
    ensures
        client::next(StateView::Relaying, EventView::Relayed(a, b)) == (
            StateView::Done,
            ActionView::Finish(a, b),
        ),
{
}

/// A reply that was written leads to the relay where nothing had failed, and
/// ends the connection with the failure where something had.
pub proof fn lemma_after_reply(e: ErrorView)
    ensures
        client::next(StateView::Replying(None), EventView::Written) == (
            StateView::Relaying,
            ActionView::Relay,
        ),
        client::next(StateView::Replying(Some(e)), EventView::Written) == (
            StateView::Done,
            ActionView::Fail(e),
        ),
{
}

/// Whatever is going on, a timeout ends the connection, and so does a failure,
/// with the very error that it brings.
pub proof fn lemma_after_interruption(s: StateView, e: ErrorView)
    ensures
        client::expected(s, EventView::TimedOut) ==> client::next(s, EventView::TimedOut) == (
            StateView::Done,
            ActionView::Fail(
                ErrorView { kind: ErrorKind::Other, message: "timeout during handshake"@ },
            ),
        ),
        client::expected(s, EventView::Failed(e)) ==> client::next(s, EventView::Failed(e)) == (
            StateView::Done,
            ActionView::Fail(e),
        ),
{
}

} // verus!
