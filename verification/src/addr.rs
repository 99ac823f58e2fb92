//! Socket addresses.
use vstd::prelude::*;

verus! {

/// An IPv4 address, by its four octets, and a port.
#[derive(Clone, Copy, Debug, PartialEq, Eq)]
pub struct SocketAddrV4 {
    pub octets: [u8; 4],
    pub port: u16,
}

/// An IPv6 address, by its eight segments, and a port.
#[derive(Clone, Copy, Debug, PartialEq, Eq)]
pub struct SocketAddrV6 {
    pub segments: [u16; 8],
    pub port: u16,
    pub flowinfo: u32,
    pub scope_id: u32,
}

/// An address that a connection can be made to.
#[derive(Clone, Copy, Debug, PartialEq, Eq)]
pub enum SocketAddr {
    V4(SocketAddrV4),
    V6(SocketAddrV6),
}

/// The mathematical value of a [`SocketAddr`].
#[verifier::ext_equal]
pub enum AddrView {
    V4 { octets: Seq<u8>, port: u16 },
    V6 { segments: Seq<u16>, port: u16, flowinfo: u32, scope_id: u32 },
}

impl AddrView {
    /// Four octets, or eight segments.
    pub open spec fn well_formed(self) -> bool {
        match self {
            AddrView::V4 { octets, .. } => octets.len() == 4,
            AddrView::V6 { segments, .. } => segments.len() == 8,
        }
    }

    pub open spec fn port(self) -> u16 {
        match self {
            AddrView::V4 { port, .. } => port,
            AddrView::V6 { port, .. } => port,
        }
    }
}

impl View for SocketAddr {
    type V = AddrView;

    open spec fn view(&self) -> AddrView {
        match self {
            SocketAddr::V4(a) => AddrView::V4 { octets: a.octets@, port: a.port },
            SocketAddr::V6(a) => AddrView::V6 {
                segments: a.segments@,
                port: a.port,
                flowinfo: a.flowinfo,
                scope_id: a.scope_id,
            },
        }
    }
}

/// The value of every address is well formed.
pub proof fn lemma_addr_well_formed(addr: SocketAddr)
    ensures
        addr@.well_formed(),
{
}

} // verus!
