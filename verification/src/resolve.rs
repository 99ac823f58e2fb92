//! From a hostname and a port in a request to an address.
use crate::addr::{AddrView, SocketAddr};
use crate::error;
use crate::error::{other, Error, ErrorKind, ErrorView};
use crate::text;
use crate::text::push_decimal;
use crate::wire;
use crate::wire::join_u16;
use vstd::prelude::*;
use vstd::slice::slice_subrange;
use vstd::string::*;

verus! {

/// The bytes of the hostname: all but the last two of the buffer.
pub open spec fn host_of(addr_buf: Seq<u8>) -> Seq<u8> {
    addr_buf.take(addr_buf.len() - 2)
}

/// The port: the last two bytes of the buffer.
pub open spec fn port_of(addr_buf: Seq<u8>) -> u16 {
    wire::be16(addr_buf[addr_buf.len() - 2], addr_buf[addr_buf.len() - 1])
}

/// A host and a port as they are handed to name resolution, `host:port`.
pub open spec fn host_port(host: Seq<char>, port: u16) -> Seq<char> {
    host + ":"@ + text::decimal(port as nat)
}

/// What is to be looked up for a hostname and a port, or why nothing is.
pub open spec fn lookup(addr_buf: Seq<u8>) -> Result<Seq<char>, ErrorView> {
    if vstd::utf8::valid_utf8(host_of(addr_buf)) {
        Ok(host_port(vstd::utf8::decode_utf8(host_of(addr_buf)), port_of(addr_buf)))
    } else {
        Err(error::other_error("hostname buffer provided was not valid utf-8"@))
    }
}

/// The address that a lookup comes to: the first one found.
pub open spec fn first_found(addrs: Seq<AddrView>) -> Result<AddrView, ErrorView> {
    if addrs.len() > 0 {
        Ok(addrs[0])
    } else {
        Err(error::other_error("no addresses found during name resolution"@))
    }
}

/// Takes apart what a request names as its destination, a hostname followed by
/// the two bytes of a port, and gives the text that name resolution looks up.
pub fn resolve(addr_buf: &[u8]) -> (target: Result<String, Error>)
    requires
        addr_buf@.len() >= 2,
    ensures
        match target {
            Ok(name) => lookup(addr_buf@) == Ok::<Seq<char>, ErrorView>(name@),
            Err(e) => lookup(addr_buf@) == Err::<Seq<char>, ErrorView>(e@),
        },
        target is Ok <==> vstd::utf8::valid_utf8(addr_buf@.take(addr_buf@.len() - 2)),
        match target {
            Ok(name) => {
                let host = vstd::utf8::decode_utf8(addr_buf@.take(addr_buf@.len() - 2));
                let colon = host.len() as int;
                &&& name@.len() > colon + 1
                &&& name@.take(colon) == host
                &&& name@[colon] == ':'
                &&& forall|i: int|
                    colon < i < name@.len() ==> '0' <= #[trigger] name@[i] <= '9'
                &&& name@.skip(colon + 1).fold_left(
                    0int,
                    |value: int, c: char| 10 * value + (c as int - '0' as int),
                ) == 256 * addr_buf@[addr_buf@.len() - 2] + addr_buf@[addr_buf@.len() - 1]
                &&& name@[colon + 1] == '0' ==> name@.len() == colon + 2
            },
            Err(e) => {
                &&& e.kind == ErrorKind::Other
                &&& e.message@ == "hostname buffer provided was not valid utf-8"@
            },
        },
{
    let pos: usize = addr_buf.len() - 2;
    let host = slice_subrange(addr_buf, 0, pos);
    assert(host@ =~= host_of(addr_buf@));
    match core::str::from_utf8(host) {
        Ok(hostname) => {
            let port: u16 = join_u16(addr_buf[pos], addr_buf[pos + 1]);
            let mut name = hostname.to_owned();
            name.append(":");
            proof {
                reveal_strlit(":");
            }
            let ghost before = name@;
            push_decimal(&mut name, port as u64);
            proof {
                let colon = hostname@.len() as int;
                assert(before =~= hostname@.push(':'));
                assert(name@[colon] == name@.take(colon + 1)[colon]);
                assert(name@.take(colon) =~= name@.take(colon + 1).take(colon));
                assert(before.take(colon) =~= hostname@);
            }
            Ok(name)
        },
        Err(_) => Err(other("hostname buffer provided was not valid utf-8")),
    }
}

/// Picks the address to connect to out of what name resolution found.
pub fn first_addr(addrs: &Vec<SocketAddr>) -> (addr: Result<SocketAddr, Error>)
    ensures
        match addr {
            Ok(a) => first_found(addrs@.map_values(|a: SocketAddr| a@)) == Ok::<
                AddrView,
                ErrorView,
            >(a@),
            Err(e) => first_found(addrs@.map_values(|a: SocketAddr| a@)) == Err::<
                AddrView,
                ErrorView,
            >(e@),
        },
        addrs@.len() > 0 ==> addr == Ok::<SocketAddr, Error>(addrs@[0]),
        addrs@.len() == 0 ==> match addr {
            Ok(_) => false,
            Err(e) => {
                &&& e.kind == ErrorKind::Other
                &&& e.message@ == "no addresses found during name resolution"@
            },
        },
{
    if addrs.len() > 0 {
        Ok(addrs[0])
    } else {
        Err(other("no addresses found during name resolution"))
    }
}

} // verus!
