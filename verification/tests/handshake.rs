use socks5::addr::{SocketAddr, SocketAddrV4, SocketAddrV6};
use socks5::client::{offers_no_auth, Action, Client, Event, HANDSHAKE_TIMEOUT_SECS};
use socks5::error::{other, Error, ErrorKind};

const HELLO: [u8; 3] = [5, 1, 0];

fn v4(octets: [u8; 4], port: u16) -> SocketAddr {
    SocketAddr::V4(SocketAddrV4 { octets, port })
}

fn error(kind: ErrorKind, message: &str) -> Error {
    Error { kind, message: message.to_string() }
}

fn step(client: Client, event: Event) -> (Client, Action) {
    assert!(client.expects(&event));
    client.serve(event)
}

/// How a conversation with a client that sends some bytes comes out.
struct Talk {
    client: Client,
    action: Action,
    written: Vec<u8>,
    left: Vec<u8>,
    timers: Vec<u64>,
    events: usize,
}

/// Plays a client that sends `input`, up to the first action that is not about
/// talking to the client.
fn talk(input: &[u8]) -> Talk {
    let mut left = input.to_vec();
    let mut written = Vec::new();
    let mut timers = Vec::new();
    let mut events = 1;
    let (mut client, mut action) = step(Client::new(), Event::Accepted);
    loop {
        let event = match action {
            Action::Read(n) if n <= left.len() => {
                let rest = left.split_off(n);
                Event::Read(std::mem::replace(&mut left, rest))
            }
            Action::StartTimer(secs) => {
                timers.push(secs);
                Event::TimerStarted
            }
            Action::Write(bytes) => {
                written.extend_from_slice(&bytes);
                Event::Written
            }
            action => return Talk { client, action, written, left, timers, events },
        };
        events += 1;
        let next = step(client, event);
        client = next.0;
        action = next.1;
    }
}

fn refusal(input: &[u8]) -> (String, Vec<u8>, Vec<u8>) {
    let t = talk(input);
    match t.action {
        Action::Fail(e) => {
            assert_eq!(e.kind, ErrorKind::Other);
            assert!(!t.client.expects(&Event::TimedOut));
            assert!(!t.client.expects(&Event::Accepted));
            (e.message, t.written, t.left)
        }
        _ => panic!("not refused"),
    }
}

fn request(parts: &[&[u8]]) -> Vec<u8> {
    let mut input = HELLO.to_vec();
    for part in parts {
        input.extend_from_slice(part);
    }
    input
}

fn destination(t: &Talk) -> SocketAddr {
    match t.action {
        Action::Connect(addr) => addr,
        _ => panic!("not connecting"),
    }
}

#[test]
fn first_action_reads_the_version() {
    let (_, action) = step(Client::new(), Event::Accepted);
    assert!(matches!(action, Action::Read(1)));
}

#[test]
fn timer_is_started_once_the_version_is_known() {
    let (client, _) = step(Client::new(), Event::Accepted);
    assert!(!client.expects(&Event::TimedOut));
    let (client, action) = step(client, Event::Read(vec![5]));
    assert!(matches!(action, Action::StartTimer(10)));
    assert_eq!(HANDSHAKE_TIMEOUT_SECS, 10);
    assert!(!client.expects(&Event::TimedOut));
    let (client, action) = step(client, Event::TimerStarted);
    assert!(matches!(action, Action::Read(1)));
    assert!(client.expects(&Event::TimedOut));
}

#[test]
fn version_4_is_unimplemented() {
    assert_eq!(refusal(&[4, 1]), ("unimplemented".to_string(), vec![], vec![1]));
}

#[test]
fn other_versions_are_unknown() {
    for version in [0u8, 1, 3, 6, 255] {
        assert_eq!(refusal(&[version]), ("unknown version".to_string(), vec![], vec![]));
    }
}

#[test]
fn method_is_found_wherever_it_is() {
    assert!(offers_no_auth(&[0]));
    assert!(offers_no_auth(&[2, 1, 0]));
    assert!(offers_no_auth(&[0, 2]));
    assert!(!offers_no_auth(&[]));
    assert!(!offers_no_auth(&[1, 2, 255]));
}

#[test]
fn methods_without_no_auth_are_refused() {
    let message = "no supported method given".to_string();
    assert_eq!(refusal(&[5, 2, 1, 2, 9]), (message.clone(), vec![], vec![9]));
    assert_eq!(refusal(&[5, 0, 5]), (message.clone(), vec![], vec![5]));
    let mut input = vec![5, 255];
    input.extend_from_slice(&[2; 255]);
    assert_eq!(refusal(&input), (message, vec![], vec![]));
}

#[test]
fn method_is_acknowledged() {
    let t = talk(&[5, 3, 2, 0, 1]);
    assert_eq!(t.written, vec![5, 0]);
    assert!(matches!(t.action, Action::Read(1)));
    assert_eq!(t.timers, vec![10]);
}

#[test]
fn version_has_to_be_repeated() {
    let (message, written, left) = refusal(&request(&[&[4, 1, 0]]));
    assert_eq!(message, "didn't confirm with v5 version");
    assert_eq!(written, vec![5, 0]);
    assert_eq!(left, vec![1, 0]);
}

#[test]
fn only_connect_is_supported() {
    for command in [0u8, 2, 3, 255] {
        let (message, written, _) = refusal(&request(&[&[5, command]]));
        assert_eq!(message, "unsupported command");
        assert_eq!(written, vec![5, 0]);
    }
}

#[test]
fn other_address_types_are_refused() {
    for (atyp, message) in [
        (0u8, "unknown ATYP received: 0"),
        (2, "unknown ATYP received: 2"),
        (5, "unknown ATYP received: 5"),
        (42, "unknown ATYP received: 42"),
        (255, "unknown ATYP received: 255"),
    ] {
        let (got, written, left) = refusal(&request(&[&[5, 1, 0, atyp, 8, 8]]));
        assert_eq!(got, message);
        assert_eq!(written, vec![5, 0]);
        assert_eq!(left, vec![8, 8]);
    }
}

#[test]
fn ipv4_destination() {
    let t = talk(&request(&[&[5, 1, 0, 1, 93, 184, 216, 34, 0, 80], b"GET /"]));
    assert_eq!(destination(&t), v4([93, 184, 216, 34], 80));
    assert_eq!(t.left, b"GET /".to_vec());
    assert_eq!(t.written, vec![5, 0]);
}

#[test]
fn ipv6_destination() {
    let t = talk(&request(&[
        &[5, 1, 0, 4],
        &[0x20, 1, 0xd, 0xb8, 0, 0, 0, 0, 0, 0, 0, 0, 0, 0, 0x12, 0x34],
        &[1, 0xbb],
        &[7],
    ]));
    assert_eq!(
        destination(&t),
        SocketAddr::V6(SocketAddrV6 {
            segments: [0x2001, 0xdb8, 0, 0, 0, 0, 0, 0x1234],
            port: 443,
            flowinfo: 0,
            scope_id: 0,
        })
    );
    assert_eq!(t.left, vec![7]);
}

#[test]
fn reserved_byte_does_not_matter() {
    for reserved in [0u8, 1, 255] {
        let t = talk(&request(&[&[5, 1, reserved, 1, 1, 2, 3, 4, 0, 9]]));
        assert_eq!(destination(&t), v4([1, 2, 3, 4], 9));
    }
}

#[test]
fn domain_destination_is_looked_up() {
    let t = talk(&request(&[&[5, 1, 0, 3, 11], b"example.com", &[0, 80], b"x"]));
    assert!(matches!(t.action, Action::Resolve(ref name) if name == "example.com:80"));
    assert_eq!(t.left, b"x".to_vec());
    let found = vec![v4([1, 2, 3, 4], 80), v4([5, 6, 7, 8], 80)];
    let (_, action) = step(t.client, Event::Resolved(found));
    assert!(matches!(action, Action::Connect(addr) if addr == v4([1, 2, 3, 4], 80)));
}

#[test]
fn longest_domain() {
    let host = [b'a'; 255];
    let t = talk(&request(&[&[5, 1, 0, 3, 255], &host, &[0xff, 0xff]]));
    match t.action {
        Action::Resolve(name) => assert_eq!(name, format!("{}:65535", "a".repeat(255))),
        _ => panic!("not resolving"),
    }
}

#[test]
fn domain_has_to_be_utf8() {
    let (message, written, left) = refusal(&request(&[&[5, 1, 0, 3, 1, 0xff, 0, 80, 6]]));
    assert_eq!(message, "hostname buffer provided was not valid utf-8");
    assert_eq!(written, vec![5, 0]);
    assert_eq!(left, vec![6]);
}

#[test]
fn domain_without_addresses_fails() {
    let t = talk(&request(&[&[5, 1, 0, 3, 1, b'h', 0, 80]]));
    let (_, action) = step(t.client, Event::Resolved(vec![]));
    assert!(matches!(
        action,
        Action::Fail(ref e) if e == &other("no addresses found during name resolution")
    ));
}

#[test]
fn failed_lookup_is_passed_on() {
    let t = talk(&request(&[&[5, 1, 0, 3, 1, b'h', 0, 80]]));
    let failure = || error(ErrorKind::Other, "failed to lookup address information");
    let (_, action) = step(t.client, Event::Failed(failure()));
    assert!(matches!(action, Action::Fail(ref e) if e == &failure()));
}

fn connecting() -> Client {
    talk(&request(&[&[5, 1, 0, 1, 1, 2, 3, 4, 0, 80]])).client
}

#[test]
fn success_is_answered_and_relayed() {
    let (client, action) = step(connecting(), Event::Connected(Some(v4([10, 0, 0, 9], 50000))));
    match action {
        Action::Reply(w) => {
            assert_eq!(w.as_ref(), &[5, 0, 0, 1, 10, 0, 0, 9, 0xc3, 0x50][..])
        }
        _ => panic!("no reply"),
    }
    assert!(client.expects(&Event::TimedOut));
    let (client, action) = step(client, Event::Written);
    assert!(matches!(action, Action::Relay));
    assert!(!client.expects(&Event::TimedOut));
    let (client, action) = step(client, Event::Relayed(1024, 7));
    assert!(matches!(action, Action::Finish(1024, 7)));
    assert!(!client.expects(&Event::Relayed(0, 0)));
    assert!(!client.expects(&Event::Failed(other(""))));
}

#[test]
fn failed_relay_is_passed_on() {
    let (client, _) = step(connecting(), Event::Connected(None));
    assert!(!client.expects(&Event::Relayed(1, 2)));
    let (client, _) = step(client, Event::Written);
    let (_, action) = step(client, Event::Failed(other("Connection reset by peer")));
    assert!(matches!(action, Action::Fail(ref e) if e == &other("Connection reset by peer")));
}

#[test]
fn unknown_local_address_is_replaced_by_the_target() {
    let (_, action) = step(connecting(), Event::Connected(None));
    match action {
        Action::Reply(w) => assert_eq!(w.as_ref(), &[5, 0, 0, 1, 1, 2, 3, 4, 0, 80][..]),
        _ => panic!("no reply"),
    }
}

#[test]
fn local_address_may_be_of_another_family() {
    let local = SocketAddr::V6(SocketAddrV6 {
        segments: [0, 0, 0, 0, 0, 0, 0, 1],
        port: 1,
        flowinfo: 0,
        scope_id: 0,
    });
    let (_, action) = step(connecting(), Event::Connected(Some(local)));
    match action {
        Action::Reply(w) => {
            assert_eq!(w.as_ref()[..4], [5, 0, 0, 4]);
            assert_eq!(w.as_ref().len(), 22);
            assert_eq!(w.as_ref()[19..], [1, 0, 1]);
        }
        _ => panic!("no reply"),
    }
}

#[test]
fn refused_connection_is_answered_and_then_fails() {
    let failure = || error(ErrorKind::ConnectionRefused, "Connection refused (os error 111)");
    let (client, action) = step(connecting(), Event::ConnectFailed(failure()));
    match action {
        Action::Reply(w) => assert_eq!(w.as_ref(), &[5, 5, 0, 1, 1, 2, 3, 4, 0, 80][..]),
        _ => panic!("no reply"),
    }
    let (_, action) = step(client, Event::Written);
    assert!(matches!(action, Action::Fail(ref e) if e == &failure()));
}

#[test]
fn failed_connection_is_answered_and_then_fails() {
    let failure = || error(ErrorKind::Other, "Network is unreachable");
    let (client, action) = step(connecting(), Event::ConnectFailed(failure()));
    match action {
        Action::Reply(w) => assert_eq!(w.as_ref(), &[5, 1, 0, 1, 1, 2, 3, 4, 0, 80][..]),
        _ => panic!("no reply"),
    }
    let (_, action) = step(client, Event::Written);
    assert!(matches!(action, Action::Fail(ref e) if e == &failure()));
}

#[test]
fn reply_that_cannot_be_written_fails_the_connection() {
    let (client, _) = step(connecting(), Event::Connected(None));
    let (_, action) = step(client, Event::Failed(other("zero-length write")));
    assert!(matches!(action, Action::Fail(ref e) if e == &other("zero-length write")));
}

#[test]
fn timeout_ends_the_handshake_at_any_point() {
    let input = request(&[&[5, 1, 0, 3, 1, b'h', 0, 80]]);
    for n in 1..=input.len() {
        let t = talk(&input[..n]);
        let (client, action) = step(t.client, Event::TimedOut);
        assert!(matches!(action, Action::Fail(ref e) if e == &other("timeout during handshake")));
        assert!(!client.expects(&Event::TimedOut));
    }
    let (_, action) = step(connecting(), Event::TimedOut);
    assert!(matches!(action, Action::Fail(ref e) if e == &other("timeout during handshake")));
}

#[test]
fn early_end_fails_the_connection() {
    let input = request(&[&[5, 1, 0, 1, 1, 2, 3, 4, 0]]);
    for n in 0..=input.len() {
        let t = talk(&input[..n]);
        assert!(matches!(t.action, Action::Read(_)));
        let (_, action) = step(t.client, Event::Failed(other("early eof")));
        assert!(matches!(action, Action::Fail(ref e) if e == &other("early eof")));
    }
}

#[test]
fn reads_ask_for_what_is_needed() {
    let needs = |input: &[u8]| match talk(input).action {
        Action::Read(n) => n,
        _ => panic!("not reading"),
    };
    assert_eq!(needs(&[5]), 1);
    assert_eq!(needs(&[5, 255]), 255);
    assert_eq!(needs(&request(&[&[5, 1, 0, 1]])), 6);
    assert_eq!(needs(&request(&[&[5, 1, 0, 4]])), 18);
    assert_eq!(needs(&request(&[&[5, 1, 0, 3]])), 1);
    assert_eq!(needs(&request(&[&[5, 1, 0, 3, 0]])), 2);
    assert_eq!(needs(&request(&[&[5, 1, 0, 3, 255]])), 257);
}

#[test]
fn longest_run_takes_sixteen_events() {
    let t = talk(&request(&[&[5, 1, 0, 3, 1, b'h', 0, 80]]));
    assert_eq!(t.events + 4, 16);
    let (client, _) = step(t.client, Event::Resolved(vec![v4([1, 1, 1, 1], 80)]));
    let (client, _) = step(client, Event::Connected(None));
    let (client, _) = step(client, Event::Written);
    let (client, action) = step(client, Event::Relayed(0, 0));
    assert!(matches!(action, Action::Finish(0, 0)));
    assert!(!client.expects(&Event::Relayed(0, 0)));
}

#[test]
fn events_out_of_turn_are_not_expected() {
    let client = Client::new();
    assert!(client.expects(&Event::Accepted));
    assert!(!client.expects(&Event::Read(vec![5])));
    assert!(!client.expects(&Event::Failed(other(""))));
    let (client, _) = step(client, Event::Accepted);
    assert!(client.expects(&Event::Read(vec![5])));
    assert!(!client.expects(&Event::Read(vec![])));
    assert!(!client.expects(&Event::Read(vec![5, 1])));
    assert!(!client.expects(&Event::Written));
    assert!(client.expects(&Event::Failed(other(""))));
    let client = connecting();
    assert!(client.expects(&Event::Connected(None)));
    assert!(client.expects(&Event::ConnectFailed(other(""))));
    assert!(!client.expects(&Event::Resolved(vec![])));
    assert!(!client.expects(&Event::Written));
}
