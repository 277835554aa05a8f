//! Plain-value network types shared between the control plane and the sled
//! agent: addresses as their numeric forms, networks as (address, prefix)
//! pairs, and the records built from them.

use vstd::prelude::*;

verus! {

/// An IP address, as its numeric value.
#[derive(Clone, Copy, Debug, PartialEq, Eq, Structural, Hash)]
pub enum IpAddr {
    V4(u32),
    V6(u128),
}

/// An IP network: a base address and a prefix length.
#[derive(Clone, Copy, Debug, PartialEq, Eq, Structural, Hash)]
pub enum IpNet {
    V4 { addr: u32, prefix: u8 },
    V6 { addr: u128, prefix: u8 },
}

impl IpNet {
    /// The network's base address.
    pub open spec fn ip_spec(self) -> IpAddr {
        match self {
            IpNet::V4 { addr, prefix } => IpAddr::V4(addr),
            IpNet::V6 { addr, prefix } => IpAddr::V6(addr),
        }
    }

    /// The network's base address.
    pub fn ip(&self) -> (r: IpAddr)
        ensures
            r == self.ip_spec(),
    {
        match self {
            IpNet::V4 { addr, prefix } => IpAddr::V4(*addr),
            IpNet::V6 { addr, prefix } => IpAddr::V6(*addr),
        }
    }

    /// The prefix length.
    pub fn prefix(&self) -> (r: u8)
        ensures
            (self matches IpNet::V4 { addr, prefix } ==> r == prefix),
            (self matches IpNet::V6 { addr, prefix } ==> r == prefix),
    {
        match self {
            IpNet::V4 { addr: _, prefix } => *prefix,
            IpNet::V6 { addr: _, prefix } => *prefix,
        }
    }
}

/// A socket address: an IP address and a port.
#[derive(Clone, Copy, Debug, PartialEq, Eq, Structural, Hash)]
pub struct SocketAddr {
    pub ip: IpAddr,
    pub port: u16,
}

/// A socket address over IPv6, as the sled-local services use.
#[derive(Clone, Copy, Debug, PartialEq, Eq, Structural, Hash)]
pub struct SocketAddrV6 {
    pub ip: u128,
    pub port: u16,
}

/// The kind of owner a virtual network interface is attached to.
#[derive(Clone, Copy, Debug, PartialEq, Eq, Structural, Hash)]
pub enum NetworkInterfaceKind {
    /// A vNIC attached to a guest instance.
    Instance { id: u128 },
    /// A vNIC associated with an internal service.
    Service { id: u128 },
}

/// Information required to construct a virtual network interface.
#[derive(Debug)]
pub struct NetworkInterface {
    pub id: u128,
    pub kind: NetworkInterfaceKind,
    pub name: String,
    pub ip: IpAddr,
    pub mac: u64,
    pub subnet: IpNet,
    pub vni: u32,
    pub primary: bool,
    pub slot: u8,
}

/// An IP address and inclusive port range used for source NAT — outbound
/// connections from guests or services.
#[derive(Clone, Copy, Debug, PartialEq, Eq, Structural, Hash)]
pub struct SourceNatConfig {
    /// The external address provided to the instance or service.
    pub ip: IpAddr,
    /// The first port used for source NAT, inclusive.
    pub first_port: u16,
    /// The last port used for source NAT, also inclusive.
    pub last_port: u16,
}

/// Sent by a sled agent on startup to request further instruction.
#[derive(Clone, Copy, Debug, PartialEq, Eq, Structural)]
pub struct SledAgentStartupInfo {
    /// The address of the sled agent's API endpoint.
    pub sa_address: SocketAddr,
}

/// Notice that a metrics-collector instance is up and running.
#[derive(Clone, Copy, Debug, PartialEq, Eq, Structural)]
pub struct OximeterInfo {
    /// The identifier of the collector instance.
    pub collector_id: u128,
    /// The address on which the collector listens for requests.
    pub address: SocketAddr,
}

} // verus!
