//! Constants of the SOCKSv5 protocol.
use vstd::prelude::*;

verus! {

pub const VERSION: u8 = 5;

pub const METH_NO_AUTH: u8 = 0;

pub const METH_GSSAPI: u8 = 1;

pub const METH_USER_PASS: u8 = 2;

pub const CMD_CONNECT: u8 = 1;

pub const CMD_BIND: u8 = 2;

pub const CMD_UDP_ASSOCIATE: u8 = 3;

pub const ATYP_IPV4: u8 = 1;

pub const ATYP_IPV6: u8 = 4;

pub const ATYP_DOMAIN: u8 = 3;

/// The reply code for a connection that was made.
pub const REP_SUCCEEDED: u8 = 0;

/// The reply code for a connection that failed for no more exact reason.
pub const REP_FAILURE: u8 = 1;

/// The reply code for a connection that the other end refused.
pub const REP_REFUSED: u8 = 5;

} // verus!
