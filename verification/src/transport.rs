//! Addresses of transport endpoints, as far as the broker looks into them.

use vstd::prelude::*;

verus! {

/// Port on which the peer listens unless it is told otherwise.
pub const DEFAULT_SERVER_PORT: u32 = 5552;

/// Port from which the broker dials the peer's default port.
pub const DEFAULT_CLIENT_PORT: u32 = 5553;

/// The kind of transport a connection uses, with its address.
#[derive(Clone, Copy, Debug, PartialEq, Eq, Structural)]
pub enum TransportType {
    /// A virtual socket between guest and host.
    VsockConnection { cid: u32, port: u32 },
    /// A TCP connection over IPv4.
    IpConnection { addr: u32, port: u16 },
    /// A pair of already connected descriptors; it has no port.
    FdConnection { read: i32, write: i32 },
}

/// What a finished rendezvous hands out: the descriptors to read from and
/// to write to, which from then on belong to whoever receives them, and the
/// address of the peer that connected.
#[derive(Clone, Copy, Debug, PartialEq, Eq, Structural)]
pub struct Transport {
    pub r: i32,
    pub w: i32,
    pub id: TransportType,
}

/// The port of an address, where its kind of transport has ports.
pub open spec fn port_of(address: TransportType) -> Option<u32> {
    match address {
        TransportType::VsockConnection { cid, port } => Some(port),
        TransportType::IpConnection { addr, port } => Some(port as u32),
        TransportType::FdConnection { read, write } => None,
    }
}

/// The port the broker binds before it dials a peer that listens on
/// `server_port`: the default client port for the default server port, and
/// the next port up for any other.
pub open spec fn bind_port_for(server_port: u32) -> Option<u32> {
    if server_port == DEFAULT_SERVER_PORT {
        Some(DEFAULT_CLIENT_PORT)
    } else if server_port < u32::MAX {
        Some((server_port + 1) as u32)
    } else {
        None
    }
}

impl TransportType {
    /// The port of this address; `None` for a transport without ports.
    pub fn get_port(&self) -> (port: Option<u32>)
        ensures
            port == port_of(*self),
    {
        match self {
            TransportType::VsockConnection { cid: _, port } => Some(*port),
            TransportType::IpConnection { addr: _, port } => Some(*port as u32),
            TransportType::FdConnection { read: _, write: _ } => None,
        }
    }
}

/// Chooses the local port to bind before dialling `server_port`. There is
/// none above the last port.
pub fn client_bind_port(server_port: u32) -> (port: Option<u32>)
    ensures
        port == bind_port_for(server_port),
{
    if server_port == DEFAULT_SERVER_PORT {
        Some(DEFAULT_CLIENT_PORT)
    } else {
        server_port.checked_add(1)
    }
}

} // verus!
