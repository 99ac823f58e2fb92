//! One connection's way through the handshake and on to its end.
use crate::addr::{AddrView, SocketAddr};
use crate::error;
use crate::error::{other, Error, ErrorKind, ErrorView};
use crate::resolve;
use crate::resolve::first_addr;
use crate::text;
use crate::text::push_decimal;
use crate::v4;
use crate::v5;
use crate::window;
use crate::wire;
use crate::wire::{decode_ipv4, decode_ipv6, reply};
use tokio_core::io::Window;
use vstd::pervasive::unreached;
use vstd::prelude::*;
use vstd::string::*;

verus! {

/// How long a handshake may take, in seconds, once the protocol version is
/// known.
pub const HANDSHAKE_TIMEOUT_SECS: u64 = 10;

/// Something that happened to a connection.
pub enum Event {
    /// The connection was accepted.
    Accepted,
    /// The timer that was asked for is running.
    TimerStarted,
    /// The bytes that were asked for were read.
    Read(Vec<u8>),
    /// What was to be written was written in full.
    Written,
    /// Name resolution found these addresses, in this order.
    Resolved(Vec<SocketAddr>),
    /// The connection to the destination was made. It is bound to this local
    /// address, if that is known.
    Connected(Option<SocketAddr>),
    /// The connection to the destination was not made.
    ConnectFailed(Error),
    /// Both ends have come to an end of what they send. So many bytes went to
    /// the client, and so many came from it.
    Relayed(u64, u64),
    /// The timer fired.
    TimedOut,
    /// A read, a write, name resolution, the timer or the relay failed.
    Failed(Error),
}

/// What is to be done next for a connection.
pub enum Action {
    /// Start the timer of the handshake, which fires after this many seconds.
    StartTimer(u64),
    /// Read exactly this many bytes from the client.
    Read(usize),
    /// Write these bytes to the client.
    Write([u8; 2]),
    /// Look this `host:port` up.
    Resolve(String),
    /// Connect to this address.
    Connect(SocketAddr),
    /// Write what this window shows to the client.
    Reply(Window<[u8; 32]>),
    /// The handshake is done: stop the timer, and relay bytes both ways.
    Relay,
    /// All is done. So many bytes went to the client, and so many came from it.
    Finish(u64, u64),
    /// Give the connection up.
    Fail(Error),
}

/// What a connection waits for.
enum State {
    Idle,
    Version,
    Timer,
    MethodCount,
    Methods(u8),
    Acknowledging,
    RequestVersion,
    Command,
    Reserved,
    AddressType,
    Ipv4,
    Ipv6,
    DomainLength,
    Domain(u8),
    Resolving,
    Connecting(SocketAddr),
    Replying(Option<Error>),
    Relaying,
    Done,
}

/// The mathematical value of an [`Event`].
#[verifier::ext_equal]
pub enum EventView {
    Accepted,
    TimerStarted,
    Read(Seq<u8>),
    Written,
    Resolved(Seq<AddrView>),
    Connected(Option<AddrView>),
    ConnectFailed(ErrorView),
    Relayed(u64, u64),
    TimedOut,
    Failed(ErrorView),
}

/// The mathematical value of an [`Action`]: of a reply, the bytes that it puts
/// on the wire.
#[verifier::ext_equal]
pub enum ActionView {
    StartTimer(u64),
    Read(nat),
    Write(Seq<u8>),
    Resolve(Seq<char>),
    Connect(AddrView),
    Relay,
    Finish(u64, u64),
    Fail(ErrorView),
}

/// What a connection waits for.
#[verifier::ext_equal]
pub enum StateView {
    /// To be accepted.
    Idle,
    /// The byte that names the protocol version.
    Version,
    /// The timer of the handshake.
    Timer,
    /// The byte that says how many methods follow.
    MethodCount,
    /// That many bytes, one for each method that the client offers.
    Methods(u8),
    /// The choice of a method to be written.
    Acknowledging,
    /// The byte that repeats the version.
    RequestVersion,
    /// The command byte.
    Command,
    /// The reserved byte.
    Reserved,
    /// The byte that says what form the destination has.
    AddressType,
    /// An IPv4 address and a port.
    Ipv4,
    /// An IPv6 address and a port.
    Ipv6,
    /// The byte that says how long the hostname is.
    DomainLength,
    /// A hostname of this length and a port.
    Domain(u8),
    /// Name resolution.
    Resolving,
    /// A connection to this address.
    Connecting(AddrView),
    /// The reply to be written, after which the connection fails with this
    /// error, if there is one.
    Replying(Option<ErrorView>),
    /// The relay to come to its end.
    Relaying,
    /// Nothing any more.
    Done,
}

impl View for Event {
    type V = EventView;

    open spec fn view(&self) -> EventView {
        match self {
            Event::Accepted => EventView::Accepted,
            Event::TimerStarted => EventView::TimerStarted,
            Event::Read(buf) => EventView::Read(buf@),
            Event::Written => EventView::Written,
            Event::Resolved(addrs) => EventView::Resolved(addrs@.map_values(|a: SocketAddr| a@)),
            Event::Connected(local) => EventView::Connected(
                match local {
                    Some(a) => Some(a@),
                    None => None,
                },
            ),
            Event::ConnectFailed(e) => EventView::ConnectFailed(e@),
            Event::Relayed(to_client, to_server) => EventView::Relayed(*to_client, *to_server),
            Event::TimedOut => EventView::TimedOut,
            Event::Failed(e) => EventView::Failed(e@),
        }
    }
}

impl View for Action {
    type V = ActionView;

    open spec fn view(&self) -> ActionView {
        match self {
            Action::StartTimer(secs) => ActionView::StartTimer(*secs),
            Action::Read(n) => ActionView::Read(*n as nat),
            Action::Write(bytes) => ActionView::Write(bytes@),
            Action::Resolve(name) => ActionView::Resolve(name@),
            Action::Connect(a) => ActionView::Connect(a@),
            Action::Reply(w) => ActionView::Write(window::window_bytes(*w)),
            Action::Relay => ActionView::Relay,
            Action::Finish(to_client, to_server) => ActionView::Finish(*to_client, *to_server),
            Action::Fail(e) => ActionView::Fail(e@),
        }
    }
}

impl View for State {
    type V = StateView;

    closed spec fn view(&self) -> StateView {
        match self {
            State::Idle => StateView::Idle,
            State::Version => StateView::Version,
            State::Timer => StateView::Timer,
            State::MethodCount => StateView::MethodCount,
            State::Methods(n) => StateView::Methods(*n),
            State::Acknowledging => StateView::Acknowledging,
            State::RequestVersion => StateView::RequestVersion,
            State::Command => StateView::Command,
            State::Reserved => StateView::Reserved,
            State::AddressType => StateView::AddressType,
            State::Ipv4 => StateView::Ipv4,
            State::Ipv6 => StateView::Ipv6,
            State::DomainLength => StateView::DomainLength,
            State::Domain(n) => StateView::Domain(*n),
            State::Resolving => StateView::Resolving,
            State::Connecting(a) => StateView::Connecting(a@),
            State::Replying(failure) => StateView::Replying(
                match failure {
                    Some(e) => Some(e@),
                    None => None,
                },
            ),
            State::Relaying => StateView::Relaying,
            State::Done => StateView::Done,
        }
    }
}

impl StateView {
    /// How many bytes the connection waits for, where it waits for bytes.
    pub open spec fn read_len(self) -> Option<nat> {
        match self {
            StateView::Version => Some(1),
            StateView::MethodCount => Some(1),
            StateView::Methods(n) => Some(n as nat),
            StateView::RequestVersion => Some(1),
            StateView::Command => Some(1),
            StateView::Reserved => Some(1),
            StateView::AddressType => Some(1),
            StateView::Ipv4 => Some(6),
            StateView::Ipv6 => Some(18),
            StateView::DomainLength => Some(1),
            StateView::Domain(n) => Some(n as nat + 2),
            _ => None,
        }
    }

    /// Whether the timer of the handshake is running.
    pub open spec fn timed(self) -> bool {
        match self {
            StateView::Idle
            | StateView::Version
            | StateView::Timer
            | StateView::Relaying
            | StateView::Done => false,
            _ => true,
        }
    }

    /// Whether something is waited for that can fail.
    pub open spec fn can_fail(self) -> bool {
        self.timed() || self is Version || self is Relaying
    }
}

/// Whether `event` is one that a connection in state `s` waits for.
pub open spec fn expected(s: StateView, event: EventView) -> bool {
    match event {
        EventView::Accepted => s is Idle,
        EventView::TimerStarted => s is Timer,
        EventView::Read(buf) => s.read_len() == Some(buf.len()),
        EventView::Written => s is Acknowledging || s is Replying,
        EventView::Resolved(_) => s is Resolving,
        EventView::Connected(_) => s is Connecting,
        EventView::ConnectFailed(_) => s is Connecting,
        EventView::Relayed(_, _) => s is Relaying,
        EventView::TimedOut => s.timed(),
        EventView::Failed(_) => s.can_fail(),
    }
}

/// The connection goes on to state `s`, which waits for bytes.
pub open spec fn ask(s: StateView) -> (StateView, ActionView) {
    (s, ActionView::Read(s.read_len()->0))
}

/// The connection is given up, with error `e`.
pub open spec fn give_up(e: ErrorView) -> (StateView, ActionView) {
    (StateView::Done, ActionView::Fail(e))
}

/// The connection is given up, for a reason of the server's own.
pub open spec fn refuse(desc: Seq<char>) -> (StateView, ActionView) {
    give_up(error::other_error(desc))
}

/// The destination is known to be `addr`.
pub open spec fn connect(addr: AddrView) -> (StateView, ActionView) {
    (StateView::Connecting(addr), ActionView::Connect(addr))
}

/// The reply code that tells how connecting went.
pub open spec fn code_of(outcome: Result<Option<AddrView>, ErrorView>) -> u8 {
    match outcome {
        Ok(_) => v5::REP_SUCCEEDED,
        Err(e) => if e.kind == ErrorKind::ConnectionRefused {
            v5::REP_REFUSED
        } else {
            v5::REP_FAILURE
        },
    }
}

/// The address that a reply names: the one that the connection to `target` is
/// bound to, or `target` itself where there is none or it is not known.
pub open spec fn bound_of(
    target: AddrView,
    outcome: Result<Option<AddrView>, ErrorView>,
) -> AddrView {
    match outcome {
        Ok(Some(local)) => local,
        _ => target,
    }
}

/// The mathematical value of how connecting went.
pub open spec fn outcome_view(outcome: Result<Option<SocketAddr>, Error>) -> Result<
    Option<AddrView>,
    ErrorView,
> {
    match outcome {
        Ok(Some(local)) => Ok(Some(local@)),
        Ok(None) => Ok(None),
        Err(e) => Err(e@),
    }
}

/// The client is told how connecting to `target` went.
pub open spec fn answer(
    target: AddrView,
    outcome: Result<Option<AddrView>, ErrorView>,
) -> (StateView, ActionView) {
    (
        StateView::Replying(
            match outcome {
                Ok(_) => None,
                Err(e) => Some(e),
            },
        ),
        ActionView::Write(wire::reply_bytes(code_of(outcome), bound_of(target, outcome))),
    )
}

/// What follows from the bytes that a connection in state `s` waited for.
pub open spec fn after_read(s: StateView, buf: Seq<u8>) -> (StateView, ActionView) {
    match s {
        StateView::Version => if buf[0] == v5::VERSION {
            (StateView::Timer, ActionView::StartTimer(HANDSHAKE_TIMEOUT_SECS))
        } else if buf[0] == v4::VERSION {
            refuse("unimplemented"@)
        } else {
            refuse("unknown version"@)
        },
        StateView::MethodCount => ask(StateView::Methods(buf[0])),
        StateView::Methods(_) => if buf.contains(v5::METH_NO_AUTH) {
            (StateView::Acknowledging, ActionView::Write(seq![v5::VERSION, v5::METH_NO_AUTH]))
        } else {
            refuse("no supported method given"@)
        },
        StateView::RequestVersion => if buf[0] == v5::VERSION {
            ask(StateView::Command)
        } else {
            refuse("didn't confirm with v5 version"@)
        },
        StateView::Command => if buf[0] == v5::CMD_CONNECT {
            ask(StateView::Reserved)
        } else {
            refuse("unsupported command"@)
        },
        StateView::Reserved => ask(StateView::AddressType),
        StateView::AddressType => if buf[0] == v5::ATYP_IPV4 {
            ask(StateView::Ipv4)
        } else if buf[0] == v5::ATYP_IPV6 {
            ask(StateView::Ipv6)
        } else if buf[0] == v5::ATYP_DOMAIN {
            ask(StateView::DomainLength)
        } else {
            refuse("unknown ATYP received: "@ + text::decimal(buf[0] as nat))
        },
        StateView::Ipv4 => connect(wire::ipv4_of(buf)),
        StateView::Ipv6 => connect(wire::ipv6_of(buf)),
        StateView::DomainLength => ask(StateView::Domain(buf[0])),
        StateView::Domain(_) => match resolve::lookup(buf) {
            Ok(name) => (StateView::Resolving, ActionView::Resolve(name)),
            Err(e) => give_up(e),
        },
        _ => arbitrary(),
    }
}

/// The protocol: what a connection in state `s` does on `event`, and what it
/// then waits for.
pub open spec fn next(s: StateView, event: EventView) -> (StateView, ActionView)
    recommends
        expected(s, event),
{
    match event {
        EventView::Accepted => ask(StateView::Version),
        EventView::TimerStarted => ask(StateView::MethodCount),
        EventView::Read(buf) => after_read(s, buf),
        EventView::Written => match s {
            StateView::Acknowledging => ask(StateView::RequestVersion),
            StateView::Replying(None) => (StateView::Relaying, ActionView::Relay),
            StateView::Replying(Some(e)) => give_up(e),
            _ => arbitrary(),
        },
        EventView::Resolved(addrs) => match resolve::first_found(addrs) {
            Ok(addr) => connect(addr),
            Err(e) => give_up(e),
        },
        EventView::Connected(local) => answer(s->Connecting_0, Ok(local)),
        EventView::ConnectFailed(e) => answer(s->Connecting_0, Err(e)),
        EventView::Relayed(to_client, to_server) => (
            StateView::Done,
            ActionView::Finish(to_client, to_server),
        ),
        EventView::TimedOut => refuse("timeout during handshake"@),
        EventView::Failed(e) => give_up(e),
    }
}

/// One connection's way from its acceptance to its end.
pub struct Client {
    state: State,
}

impl View for Client {
    type V = StateView;

    closed spec fn view(&self) -> StateView {
        self.state@
    }
}

/// Whether the methods that a client offers include the one that this server
/// supports, which is no authentication.
pub fn offers_no_auth(methods: &[u8]) -> (offered: bool)
    ensures
        offered == methods@.contains(v5::METH_NO_AUTH),
        offered <==> exists|i: int| 0 <= i < methods@.len() && methods@[i] == 0,
{
    let mut i: usize = 0;
    while i < methods.len()
        invariant
            i <= methods@.len(),
            forall|j: int| 0 <= j < i ==> methods@[j] != v5::METH_NO_AUTH,
        decreases methods@.len() - i,
    {
        if methods[i] == v5::METH_NO_AUTH {
            return true;
        }
        i = i + 1;
    }
    false
}

impl Client {
    /// A connection that is yet to be accepted.
    pub fn new() -> (client: Client)
        ensures
            client@ == StateView::Idle,
    {
        Client { state: State::Idle }
    }

    /// How many bytes the connection waits for, where it waits for bytes.
    fn read_len(&self) -> (n: Option<usize>)
        ensures
            match n {
                Some(n) => self@.read_len() == Some(n as nat),
                None => self@.read_len() is None,
            },
    {
        match &self.state {
            State::Version => Some(1),
            State::MethodCount => Some(1),
            State::Methods(count) => Some(*count as usize),
            State::RequestVersion => Some(1),
            State::Command => Some(1),
            State::Reserved => Some(1),
            State::AddressType => Some(1),
            State::Ipv4 => Some(6),
            State::Ipv6 => Some(18),
            State::DomainLength => Some(1),
            State::Domain(len) => Some(*len as usize + 2),
            _ => None,
        }
    }

    /// Whether `event` is one that the connection waits for, and so one that
    /// [`Client::serve`] takes.
    pub fn expects(&self, event: &Event) -> (expects: bool)
        ensures
            expects == expected(self@, event@),
    {
        match event {
            Event::Accepted => matches!(self.state, State::Idle),
            Event::TimerStarted => matches!(self.state, State::Timer),
            Event::Read(buf) => match self.read_len() {
                Some(n) => n == buf.len(),
                None => false,
            },
            Event::Written => matches!(self.state, State::Acknowledging | State::Replying(_)),
            Event::Resolved(_) => matches!(self.state, State::Resolving),
            Event::Connected(_) => matches!(self.state, State::Connecting(_)),
            Event::ConnectFailed(_) => matches!(self.state, State::Connecting(_)),
            Event::Relayed(_, _) => matches!(self.state, State::Relaying),
            Event::TimedOut => !matches!(
                self.state,
                State::Idle | State::Version | State::Timer | State::Relaying | State::Done
            ),
            Event::Failed(_) => !matches!(self.state, State::Idle | State::Timer | State::Done),
        }
    }

    fn ask(state: State, n: usize) -> (step: (Client, Action))
        requires
            state@.read_len() == Some(n as nat),
        ensures
            (step.0@, step.1@) == ask(state@),
    {
        (Client { state }, Action::Read(n))
    }

    fn give_up(e: Error) -> (step: (Client, Action))
        ensures
            (step.0@, step.1@) == give_up(e@),
    {
        (Client { state: State::Done }, Action::Fail(e))
    }

    fn refuse(desc: &str) -> (step: (Client, Action))
        ensures
            (step.0@, step.1@) == refuse(desc@),
    {
        Client::give_up(other(desc))
    }

    fn connect(addr: SocketAddr) -> (step: (Client, Action))
        ensures
            (step.0@, step.1@) == connect(addr@),
    {
        (Client { state: State::Connecting(addr) }, Action::Connect(addr))
    }

    /// Takes in what happened to the connection and says what is to be done
    /// next.
    ///
    /// The first byte that a client sends names the protocol version, and
    /// decides who goes on from there.
    pub fn serve(self, event: Event) -> (step: (Client, Action))
        requires
            expected(self@, event@),
        ensures
            (step.0@, step.1@) == next(self@, event@),
    {
        match (self.state, event) {
            (State::Idle, _) => Client::ask(State::Version, 1),
            (State::Version, Event::Read(buf)) => match buf[0] {
                v5::VERSION => (
                    Client { state: State::Timer },
                    Action::StartTimer(HANDSHAKE_TIMEOUT_SECS),
                ),
                v4::VERSION => Client::serve_v4(),
                _ => Client::refuse("unknown version"),
            },
            (State::Version, Event::Failed(e)) => Client::give_up(e),
            (state, event) => Client::serve_v5(state, event),
        }
    }

    /// SOCKSv4 is not implemented.
    fn serve_v4() -> (step: (Client, Action))
        ensures
            (step.0@, step.1@) == refuse("unimplemented"@),
    {
        Client::refuse("unimplemented")
    }

    /// The SOCKSv5 protocol, from the moment that the version is known: a
    /// method is agreed on, the client's request is read, the connection that
    /// it asks for is made, the client is told how that went, and bytes are
    /// relayed.
    fn serve_v5(state: State, event: Event) -> (step: (Client, Action))
        requires
            expected(state@, event@),
            !(state is Idle),
            !(state is Version),
        ensures
            (step.0@, step.1@) == next(state@, event@),
    {
        match event {
            Event::TimerStarted => Client::ask(State::MethodCount, 1),
            Event::Read(buf) => Client::serve_bytes(state, buf.as_slice()),
            Event::Written => match state {
                State::Acknowledging => Client::ask(State::RequestVersion, 1),
                State::Replying(None) => (Client { state: State::Relaying }, Action::Relay),
                State::Replying(Some(e)) => Client::give_up(e),
                _ => unreached(),
            },
            Event::Resolved(addrs) => match first_addr(&addrs) {
                Ok(addr) => Client::connect(addr),
                Err(e) => Client::give_up(e),
            },
            Event::Connected(local) => match state {
                State::Connecting(target) => Client::answer(target, Ok(local)),
                _ => unreached(),
            },
            Event::ConnectFailed(e) => match state {
                State::Connecting(target) => Client::answer(target, Err(e)),
                _ => unreached(),
            },
            Event::Relayed(to_client, to_server) => (
                Client { state: State::Done },
                Action::Finish(to_client, to_server),
            ),
            Event::TimedOut => Client::refuse("timeout during handshake"),
            Event::Failed(e) => Client::give_up(e),
            Event::Accepted => unreached(),
        }
    }

    /// The part of the handshake that goes by what the client sent.
    fn serve_bytes(state: State, buf: &[u8]) -> (step: (Client, Action))
        requires
            state@.read_len() == Some(buf@.len()),
            !(state is Version),
        ensures
            (step.0@, step.1@) == after_read(state@, buf@),
    {
        match state {
            State::MethodCount => {
                let count: u8 = buf[0];
                Client::ask(State::Methods(count), count as usize)
            },
            State::Methods(_) => if offers_no_auth(buf) {
                let ack = [v5::VERSION, v5::METH_NO_AUTH];
                assert(ack@ =~= seq![v5::VERSION, v5::METH_NO_AUTH]);
                (Client { state: State::Acknowledging }, Action::Write(ack))
            } else {
                Client::refuse("no supported method given")
            },
            State::RequestVersion => if buf[0] == v5::VERSION {
                Client::ask(State::Command, 1)
            } else {
                Client::refuse("didn't confirm with v5 version")
            },
            State::Command => if buf[0] == v5::CMD_CONNECT {
                Client::ask(State::Reserved, 1)
            } else {
                Client::refuse("unsupported command")
            },
            State::Reserved => Client::ask(State::AddressType, 1),
            State::AddressType => {
                let atyp: u8 = buf[0];
                if atyp == v5::ATYP_IPV4 {
                    Client::ask(State::Ipv4, 6)
                } else if atyp == v5::ATYP_IPV6 {
                    Client::ask(State::Ipv6, 18)
                } else if atyp == v5::ATYP_DOMAIN {
                    Client::ask(State::DomainLength, 1)
                } else {
                    let mut msg = "unknown ATYP received: ".to_owned();
                    push_decimal(&mut msg, atyp as u64);
                    Client::refuse(msg.as_str())
                }
            },
            State::Ipv4 => Client::connect(decode_ipv4(buf)),
            State::Ipv6 => Client::connect(decode_ipv6(buf)),
            State::DomainLength => {
                let len: u8 = buf[0];
                Client::ask(State::Domain(len), len as usize + 2)
            },
            State::Domain(_) => match resolve::resolve(buf) {
                Ok(name) => (Client { state: State::Resolving }, Action::Resolve(name)),
                Err(e) => Client::give_up(e),
            },
            _ => unreached(),
        }
    }

    /// The reply to the client, once it is known whether the connection to
    /// `target` was made.
    fn answer(target: SocketAddr, outcome: Result<Option<SocketAddr>, Error>) -> (step: (
        Client,
        Action,
    ))
        ensures
            (step.0@, step.1@) == answer(target@, outcome_view(outcome)),
    {
        let code: u8 = match &outcome {
            Ok(_) => v5::REP_SUCCEEDED,
            Err(e) => if e.kind == ErrorKind::ConnectionRefused {
                v5::REP_REFUSED
            } else {
                v5::REP_FAILURE
            },
        };
        let bound = match &outcome {
            Ok(Some(local)) => *local,
            _ => target,
        };
        let failure = match outcome {
            Ok(_) => None,
            Err(e) => Some(e),
        };
        (Client { state: State::Replying(failure) }, Action::Reply(reply(code, &bound)))
    }
}

} // verus!
