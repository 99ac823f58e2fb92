//! Which bytes a client has to send to be connected where it wants to be.
use crate::addr::AddrView;
use crate::client;
use crate::client::{ActionView, EventView, StateView};
use crate::error;
use crate::laws;
use crate::resolve;
use crate::runs;
use crate::text;
use crate::v4;
use crate::v5;
use crate::wire;
use vstd::prelude::*;

verus! {

/// Methods that can be offered, with the one among them that is supported.
pub open spec fn acceptable(methods: Seq<u8>) -> bool {
    methods.len() <= 255 && methods.contains(v5::METH_NO_AUTH)
}

/// A client's first message: the version, and the methods that it offers.
pub open spec fn hello_bytes(methods: Seq<u8>) -> Seq<u8> {
    seq![v5::VERSION, methods.len() as u8] + methods
}

/// How a client's second message starts that asks for a connection.
pub open spec fn connect_bytes(reserved: u8) -> Seq<u8> {
    seq![v5::VERSION, v5::CMD_CONNECT, reserved]
}

/// A destination that is given by its name.
pub open spec fn domain_bytes(host: Seq<u8>, port: u16) -> Seq<u8> {
    seq![v5::ATYP_DOMAIN, host.len() as u8] + host + wire::be16_bytes(port)
}

/// All that a client sends to ask for a connection to `destination`.
pub open spec fn request_bytes(methods: Seq<u8>, reserved: u8, destination: Seq<u8>) -> Seq<u8> {
    hello_bytes(methods) + connect_bytes(reserved) + destination
}

/// Whether `bytes` ask for a connection to `destination`.
pub open spec fn asks_for(bytes: Seq<u8>, destination: Seq<u8>) -> bool {
    exists|methods: Seq<u8>, reserved: u8|
        acceptable(methods) && bytes == #[trigger] request_bytes(methods, reserved, destination)
}

/// Whether `bytes` are a first message that is accepted, and then `tail`.
spec fn after_hello(bytes: Seq<u8>, tail: Seq<u8>) -> bool {
    exists|methods: Seq<u8>|
        acceptable(methods) && bytes == #[trigger] hello_bytes(methods) + tail
}

proof fn lemma_after_hello_extends(bytes: Seq<u8>, tail: Seq<u8>, more: Seq<u8>)
    requires
        after_hello(bytes, tail),
    ensures
        after_hello(bytes + more, tail + more),
{
    let methods = choose|methods: Seq<u8>|
        acceptable(methods) && bytes == #[trigger] hello_bytes(methods) + tail;
    assert(bytes + more =~= hello_bytes(methods) + (tail + more));
}

proof fn lemma_asks_for_extends(bytes: Seq<u8>, destination: Seq<u8>, more: Seq<u8>)
    requires
        asks_for(bytes, destination),
    ensures
        asks_for(bytes + more, destination + more),
{
    let (methods, reserved) = choose|methods: Seq<u8>, reserved: u8|
        acceptable(methods) && bytes == #[trigger] request_bytes(methods, reserved, destination);
    assert(bytes + more =~= request_bytes(methods, reserved, destination + more));
}

/// Whether `bytes` ask for a connection to a host by its name, and `name` is
/// what is looked up for it.
pub open spec fn asks_for_name(bytes: Seq<u8>, name: Seq<char>) -> bool {
    exists|host: Seq<u8>, port: u16|
        {
            &&& host.len() <= 255
            &&& vstd::utf8::valid_utf8(host)
            &&& name == resolve::host_port(vstd::utf8::decode_utf8(host), port)
            &&& asks_for(bytes, #[trigger] domain_bytes(host, port))
        }
}

/// What has been received when a connection is in state `s`.
spec fn received_in(s: StateView, bytes: Seq<u8>) -> bool {
    match s {
        StateView::Idle => bytes =~= Seq::empty(),
        StateView::Version => bytes =~= Seq::empty(),
        StateView::Timer => bytes =~= seq![v5::VERSION],
        StateView::MethodCount => bytes =~= seq![v5::VERSION],
        StateView::Methods(n) => bytes =~= seq![v5::VERSION, n],
        StateView::Acknowledging => after_hello(bytes, Seq::empty()),
        StateView::RequestVersion => after_hello(bytes, Seq::empty()),
        StateView::Command => after_hello(bytes, seq![v5::VERSION]),
        StateView::Reserved => after_hello(bytes, seq![v5::VERSION, v5::CMD_CONNECT]),
        StateView::AddressType => asks_for(bytes, Seq::empty()),
        StateView::Ipv4 => asks_for(bytes, seq![v5::ATYP_IPV4]),
        StateView::Ipv6 => asks_for(bytes, seq![v5::ATYP_IPV6]),
        StateView::DomainLength => asks_for(bytes, seq![v5::ATYP_DOMAIN]),
        StateView::Domain(n) => asks_for(bytes, seq![v5::ATYP_DOMAIN, n]),
        StateView::Resolving => exists|name: Seq<char>| asks_for_name(bytes, name),
        _ => true,
    }
}

proof fn lemma_received_step(s: StateView, buf: Seq<u8>, bytes: Seq<u8>)
    requires
        received_in(s, bytes),
        client::expected(s, EventView::Read(buf)),
    ensures
        received_in(client::next(s, EventView::Read(buf)).0, bytes + buf),
        match client::next(s, EventView::Read(buf)).1 {
            ActionView::Connect(addr) => asks_for(bytes + buf, wire::address_bytes(addr))
                && addr.well_formed() && laws::on_wire(addr) == addr,
            ActionView::Resolve(name) => asks_for_name(bytes + buf, name),
            _ => true,
        },
{
    match s {
        StateView::Methods(n) => {
            if buf.contains(v5::METH_NO_AUTH) {
                assert(bytes + buf =~= hello_bytes(buf) + Seq::<u8>::empty());
            }
        },
        StateView::RequestVersion => {
            lemma_after_hello_extends(bytes, Seq::empty(), buf);
            assert(Seq::empty() + buf =~= seq![buf[0]]);
        },
        StateView::Command => {
            lemma_after_hello_extends(bytes, seq![v5::VERSION], buf);
            assert(seq![v5::VERSION] + buf =~= seq![v5::VERSION, buf[0]]);
        },
        StateView::Reserved => {
            let tail = seq![v5::VERSION, v5::CMD_CONNECT];
            lemma_after_hello_extends(bytes, tail, buf);
            let methods = choose|methods: Seq<u8>|
                acceptable(methods) && bytes + buf == #[trigger] hello_bytes(methods) + (tail + buf);
            assert(bytes + buf =~= request_bytes(methods, buf[0], Seq::empty()));
        },
        StateView::AddressType => {
            lemma_asks_for_extends(bytes, Seq::empty(), buf);
            assert(Seq::empty() + buf =~= seq![buf[0]]);
        },
        StateView::Ipv4 => {
            lemma_asks_for_extends(bytes, seq![v5::ATYP_IPV4], buf);
            laws::lemma_ipv4_bytes(buf);
        },
        StateView::Ipv6 => {
            lemma_asks_for_extends(bytes, seq![v5::ATYP_IPV6], buf);
            laws::lemma_ipv6_bytes(buf);
        },
        StateView::DomainLength => {
            lemma_asks_for_extends(bytes, seq![v5::ATYP_DOMAIN], buf);
            assert(seq![v5::ATYP_DOMAIN] + buf =~= seq![v5::ATYP_DOMAIN, buf[0]]);
        },
        StateView::Domain(n) => {
            lemma_asks_for_extends(bytes, seq![v5::ATYP_DOMAIN, n], buf);
            let host = resolve::host_of(buf);
            let port = resolve::port_of(buf);
            laws::lemma_be16_round_trip(0, buf[buf.len() - 2], buf[buf.len() - 1]);
            assert(seq![v5::ATYP_DOMAIN, n] + buf =~= domain_bytes(host, port));
            if vstd::utf8::valid_utf8(host) {
                let name = resolve::host_port(vstd::utf8::decode_utf8(host), port);
                assert(asks_for_name(bytes + buf, name));
            }
        },
        _ => {},
    }
}

proof fn lemma_received_in(events: Seq<EventView>)
    requires
        runs::possible(events),
    ensures
        received_in(runs::state_after(events), runs::received(events)),
    decreases events.len(),
{
    if events.len() > 0 {
        let before = events.drop_last();
        lemma_received_in(before);
        match events.last() {
            EventView::Read(buf) => {
                lemma_received_step(runs::state_after(before), buf, runs::received(before));
            },
            _ => {
                assert(runs::received(events) =~= runs::received(before));
            },
        }
    }
}

/// A name is looked up only where the client has asked for a connection to
/// that host and port, in valid UTF-8, and has been read no further.
pub proof fn lemma_resolves_as_asked(events: Seq<EventView>)
    requires
        runs::possible(events),
        events.len() > 0,
        runs::action_after(events) is Resolve,
    ensures
        asks_for_name(runs::received(events), runs::action_after(events)->Resolve_0),
{
    let before = events.drop_last();
    lemma_received_in(before);
    lemma_received_step(
        runs::state_after(before),
        events.last()->Read_0,
        runs::received(before),
    );
}

/// A connection is made to an address only where the client has asked for just
/// that address, with the supported method among those that it offered, and
/// has been read no further; or where it has asked for a host by its name, and
/// that address is the first that name resolution found.
pub proof fn lemma_connects_as_asked(events: Seq<EventView>)
    requires
        runs::possible(events),
        events.len() > 0,
        runs::action_after(events) is Connect,
    ensures
        ({
            let addr = runs::action_after(events)->Connect_0;
            match events.last() {
                EventView::Read(_) => {
                    &&& asks_for(runs::received(events), wire::address_bytes(addr))
                    &&& addr.well_formed()
                    &&& laws::on_wire(addr) == addr
                },
                EventView::Resolved(addrs) => {
                    &&& addrs.len() > 0
                    &&& addr == addrs[0]
                    &&& runs::action_after(events.drop_last()) is Resolve
                    &&& asks_for_name(
                        runs::received(events),
                        runs::action_after(events.drop_last())->Resolve_0,
                    )
                },
                _ => false,
            }
        }),
{
    let before = events.drop_last();
    lemma_received_in(before);
    match events.last() {
        EventView::Read(buf) => {
            lemma_received_step(runs::state_after(before), buf, runs::received(before));
        },
        _ => {
            assert(runs::received(events) =~= runs::received(before));
            assert(runs::state_after(before) is Resolving);
            assert(runs::possible(before));
            let s = runs::state_after(before.drop_last());
            assert(runs::state_after(before) == client::next(s, before.last()).0);
            lemma_resolves_as_asked(before);
        },
    }
}

/// What comes of a connection in state `s` that has handed out `action`, where
/// the client sends `input` and all it is sent gets through: the first action
/// that is not about talking to the client, or a read that `input` is too
/// short for; and what is left of `input`.
pub open spec fn converse(s: StateView, action: ActionView, input: Seq<u8>) -> (
    ActionView,
    Seq<u8>,
)
    decreases laws::rank(s),
{
    match action {
        ActionView::Read(n) => if n <= input.len() && s.read_len() == Some(n) {
            let (after, following) = client::next(s, EventView::Read(input.take(n as int)));
            converse(after, following, input.skip(n as int))
        } else {
            (action, input)
        },
        ActionView::StartTimer(_) => if s is Timer {
            let (after, following) = client::next(s, EventView::TimerStarted);
            converse(after, following, input)
        } else {
            (action, input)
        },
        ActionView::Write(_) => if s is Acknowledging {
            let (after, following) = client::next(s, EventView::Written);
            converse(after, following, input)
        } else {
            (action, input)
        },
        _ => (action, input),
    }
}

/// What comes of a connection that has just been accepted.
pub open spec fn conversation(input: Seq<u8>) -> (ActionView, Seq<u8>) {
    let (after, action) = client::next(StateView::Idle, EventView::Accepted);
    converse(after, action, input)
}

/// The first message and the start of the second lead to the destination.
proof fn lemma_reaches_destination(methods: Seq<u8>, reserved: u8, rest: Seq<u8>)
    requires
        acceptable(methods),
    ensures
        conversation(request_bytes(methods, reserved, rest)) == converse(
            StateView::AddressType,
            ActionView::Read(1),
            rest,
        ),
{
    let input = request_bytes(methods, reserved, rest);
    let n = methods.len();
    reveal_with_fuel(converse, 9);
    let i1 = input.skip(1);
    let i2 = i1.skip(1);
    let i3 = i2.skip(n as int);
    let i4 = i3.skip(1);
    let i5 = i4.skip(1);
    let i6 = i5.skip(1);
    assert(input.take(1)[0] == v5::VERSION);
    assert(i1.take(1)[0] == n as u8);
    assert(i2.take(n as int) =~= methods);
    assert(i3.take(1)[0] == v5::VERSION);
    assert(i4.take(1)[0] == v5::CMD_CONNECT);
    assert(i6 =~= rest);
}

/// A client that offers the supported method and asks for a connection to an
/// address gets a connection to that address, whatever the reserved byte is
/// and whatever other methods it offers. What it sends after that is left for
/// the other end.
pub proof fn lemma_address_is_served(
    methods: Seq<u8>,
    reserved: u8,
    addr: AddrView,
    payload: Seq<u8>,
)
    requires
        acceptable(methods),
        addr.well_formed(),
    ensures
        conversation(request_bytes(methods, reserved, wire::address_bytes(addr)) + payload) == (
            ActionView::Connect(laws::on_wire(addr)),
            payload,
        ),
{
    let destination = wire::address_bytes(addr);
    let rest = destination + payload;
    assert(request_bytes(methods, reserved, destination) + payload =~= request_bytes(
        methods,
        reserved,
        rest,
    ));
    lemma_reaches_destination(methods, reserved, rest);
    laws::lemma_address_round_trip(addr);
    reveal_with_fuel(converse, 3);
    let n: int = if addr is V4 { 6 } else { 18 };
    assert(rest.take(1)[0] == destination[0]);
    assert(rest.skip(1).take(n) =~= destination.skip(1));
    assert(rest.skip(1).skip(n) =~= payload);
}

/// A client that offers the supported method and asks for a connection to a
/// host by its name has that name looked up, if it is in valid UTF-8, and is
/// turned away if it is not. What it sends after that is left for the other
/// end.
pub proof fn lemma_domain_is_served(
    methods: Seq<u8>,
    reserved: u8,
    host: Seq<u8>,
    port: u16,
    payload: Seq<u8>,
)
    requires
        acceptable(methods),
        host.len() <= 255,
    ensures
        conversation(request_bytes(methods, reserved, domain_bytes(host, port)) + payload) == (
            if vstd::utf8::valid_utf8(host) {
                ActionView::Resolve(resolve::host_port(vstd::utf8::decode_utf8(host), port))
            } else {
                ActionView::Fail(
                    error::other_error("hostname buffer provided was not valid utf-8"@),
                )
            },
            payload,
        ),
{
    let destination = domain_bytes(host, port);
    let rest = destination + payload;
    assert(request_bytes(methods, reserved, destination) + payload =~= request_bytes(
        methods,
        reserved,
        rest,
    ));
    lemma_reaches_destination(methods, reserved, rest);
    laws::lemma_be16_round_trip(port, 0, 0);
    reveal_with_fuel(converse, 4);
    let n: int = host.len() as int + 2;
    let buf = host + wire::be16_bytes(port);
    assert(rest.take(1)[0] == v5::ATYP_DOMAIN);
    assert(rest.skip(1).take(1)[0] == host.len() as u8);
    assert(rest.skip(1).skip(1).take(n) =~= buf);
    assert(rest.skip(1).skip(1).skip(n) =~= payload);
    assert(resolve::host_of(buf) =~= host);
    assert(resolve::port_of(buf) == port);
}

proof fn lemma_converse_is_a_run(events: Seq<EventView>, input: Seq<u8>) -> (run: Seq<EventView>)
    requires
        runs::possible(events),
        events.len() > 0,
    ensures
        runs::possible(run),
        run.len() > 0,
        ({
            let (action, rest) = converse(
                runs::state_after(events),
                runs::action_after(events),
                input,
            );
            &&& runs::action_after(run) == action
            &&& runs::received(run) + rest == runs::received(events) + input
        }),
    decreases laws::rank(runs::state_after(events)),
{
    let s = runs::state_after(events);
    let action = runs::action_after(events);
    match action {
        ActionView::Read(n) if n <= input.len() && s.read_len() == Some(n) => {
            let buf = input.take(n as int);
            let more = events.push(EventView::Read(buf));
            assert(more.drop_last() =~= events);
            assert(runs::received(more) + input.skip(n as int) =~= runs::received(events) + input);
            lemma_converse_is_a_run(more, input.skip(n as int))
        },
        ActionView::StartTimer(_) if s is Timer => {
            let more = events.push(EventView::TimerStarted);
            assert(more.drop_last() =~= events);
            assert(runs::received(more) =~= runs::received(events));
            lemma_converse_is_a_run(more, input)
        },
        ActionView::Write(_) if s is Acknowledging => {
            let more = events.push(EventView::Written);
            assert(more.drop_last() =~= events);
            assert(runs::received(more) =~= runs::received(events));
            lemma_converse_is_a_run(more, input)
        },
        _ => events,
    }
}

/// What comes of a connection where the client sends `input` is what comes of
/// it in a run that reads all of `input` but for what is left.
pub proof fn lemma_conversation_is_a_run(input: Seq<u8>)
    ensures
        exists|run: Seq<EventView>|
            {
                &&& #[trigger] runs::possible(run)
                &&& run.len() > 0
                &&& runs::action_after(run) == conversation(input).0
                &&& runs::received(run) + conversation(input).1 == input
            },
{
    let accepted = seq![EventView::Accepted];
    let none = accepted.drop_last();
    assert(none =~= Seq::empty());
    assert(runs::possible(none));
    assert(runs::received(none) =~= Seq::empty());
    assert(runs::received(accepted) + input =~= input);
    let run = lemma_converse_is_a_run(accepted, input);
    assert(runs::possible(run));
}

/// A client that does not start with the version of this protocol is turned
/// away at once.
pub proof fn lemma_other_version_is_refused(input: Seq<u8>)
    requires
        input.len() > 0,
        input[0] != v5::VERSION,
    ensures
        conversation(input) == (
            ActionView::Fail(
                error::other_error(
                    if input[0] == v4::VERSION {
                        "unimplemented"@
                    } else {
                        "unknown version"@
                    },
                ),
            ),
            input.skip(1),
        ),
{
    reveal_with_fuel(converse, 2);
    assert(input.take(1)[0] == input[0]);
}

/// A client that does not offer the supported method is turned away as soon as
/// it has said which ones it offers.
pub proof fn lemma_other_methods_are_refused(methods: Seq<u8>, payload: Seq<u8>)
    requires
        methods.len() <= 255,
        !methods.contains(v5::METH_NO_AUTH),
    ensures
        conversation(hello_bytes(methods) + payload) == (
            ActionView::Fail(error::other_error("no supported method given"@)),
            payload,
        ),
{
    let input = hello_bytes(methods) + payload;
    let n = methods.len() as int;
    reveal_with_fuel(converse, 5);
    assert(input.take(1)[0] == v5::VERSION);
    assert(input.skip(1).take(1)[0] == n as u8);
    assert(input.skip(1).skip(1).take(n) =~= methods);
    assert(input.skip(1).skip(1).skip(n) =~= payload);
}

/// The first message leads to the second.
proof fn lemma_reaches_request(methods: Seq<u8>, rest: Seq<u8>)
    requires
        acceptable(methods),
    ensures
        conversation(hello_bytes(methods) + rest) == converse(
            StateView::RequestVersion,
            ActionView::Read(1),
            rest,
        ),
{
    let input = hello_bytes(methods) + rest;
    let n = methods.len() as int;
    reveal_with_fuel(converse, 6);
    assert(input.take(1)[0] == v5::VERSION);
    assert(input.skip(1).take(1)[0] == n as u8);
    assert(input.skip(1).skip(1).take(n) =~= methods);
    assert(input.skip(1).skip(1).skip(n) =~= rest);
}

/// A client whose second message does not repeat the version is turned away.
pub proof fn lemma_other_confirmation_is_refused(
    methods: Seq<u8>,
    version: u8,
    payload: Seq<u8>,
)
    requires
        acceptable(methods),
        version != v5::VERSION,
    ensures
        conversation(hello_bytes(methods) + (seq![version] + payload)) == (
            ActionView::Fail(error::other_error("didn't confirm with v5 version"@)),
            payload,
        ),
{
    let rest = seq![version] + payload;
    lemma_reaches_request(methods, rest);
    reveal_with_fuel(converse, 2);
    assert(rest.take(1)[0] == version);
    assert(rest.skip(1) =~= payload);
}

/// A client that asks for anything but a connection is turned away.
pub proof fn lemma_other_command_is_refused(methods: Seq<u8>, command: u8, payload: Seq<u8>)
    requires
        acceptable(methods),
        command != v5::CMD_CONNECT,
    ensures
        conversation(hello_bytes(methods) + (seq![v5::VERSION, command] + payload)) == (
            ActionView::Fail(error::other_error("unsupported command"@)),
            payload,
        ),
{
    let rest = seq![v5::VERSION, command] + payload;
    lemma_reaches_request(methods, rest);
    reveal_with_fuel(converse, 3);
    assert(rest.take(1)[0] == v5::VERSION);
    assert(rest.skip(1).take(1)[0] == command);
    assert(rest.skip(1).skip(1) =~= payload);
}

/// A client that gives its destination in a form that is none of the three is
/// turned away, and the error tells the form.
pub proof fn lemma_other_address_type_is_refused(
    methods: Seq<u8>,
    reserved: u8,
    atyp: u8,
    payload: Seq<u8>,
)
    requires
        acceptable(methods),
        atyp != v5::ATYP_IPV4,
        atyp != v5::ATYP_IPV6,
        atyp != v5::ATYP_DOMAIN,
    ensures
        conversation(request_bytes(methods, reserved, seq![atyp]) + payload) == (
            ActionView::Fail(
                error::other_error("unknown ATYP received: "@ + text::decimal(atyp as nat)),
            ),
            payload,
        ),
{
    let rest = seq![atyp] + payload;
    assert(request_bytes(methods, reserved, seq![atyp]) + payload =~= request_bytes(
        methods,
        reserved,
        rest,
    ));
    lemma_reaches_destination(methods, reserved, rest);
    reveal_with_fuel(converse, 2);
    assert(rest.take(1)[0] == atyp);
    assert(rest.skip(1) =~= payload);
}

} // verus!
