//! Constants of the SOCKSv4 protocol.
use vstd::prelude::*;

verus! {

pub const VERSION: u8 = 4;

pub const CMD_CONNECT: u8 = 1;

pub const CMD_BIND: u8 = 2;

} // verus!
