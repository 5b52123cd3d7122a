//! Addresses and endpoint configuration, held as plain values.

use vstd::prelude::*;

verus! {

/// An internetworking address, held as its octets in network order.
#[derive(Clone, Copy, Debug, PartialEq, Eq)]
pub enum IpAddress {
    /// An IPv4 address.
    Ipv4([u8; 4]),
    /// An IPv6 address.
    Ipv6([u8; 16]),
}

/// Whether every octet is zero.
pub open spec fn all_zero(octets: Seq<u8>) -> bool {
    forall|i: int| 0 <= i < octets.len() ==> octets[i] == 0
}

/// Whether every octet is zero.
fn octets_all_zero(octets: &[u8]) -> (r: bool)
    ensures
        r == all_zero(octets@),
{
    let mut i: usize = 0;
    while i < octets.len()
        invariant
            i <= octets.len(),
            forall|j: int| 0 <= j < i ==> octets@[j] == 0,
        decreases octets.len() - i,
    {
        if octets[i] != 0 {
            return false;
        }
        i += 1;
    }
    true
}

impl IpAddress {
    /// An address is unspecified when every octet is zero: it names no host.
    pub open spec fn unspecified(self) -> bool {
        match self {
            IpAddress::Ipv4(octets) => all_zero(octets@),
            IpAddress::Ipv6(octets) => all_zero(octets@),
        }
    }

    /// Whether this is the address that names no host.
    #[verifier::when_used_as_spec(unspecified)]
    pub fn is_unspecified(self) -> (r: bool)
        ensures
            r == self.unspecified(),
    {
        match self {
            IpAddress::Ipv4(octets) => octets_all_zero(octets.as_slice()),
            IpAddress::Ipv6(octets) => octets_all_zero(octets.as_slice()),
        }
    }
}

/// A port, optionally narrowed to one local address.
#[derive(Clone, Copy, Debug, PartialEq, Eq)]
pub struct ListenEndpoint {
    pub addr: Option<IpAddress>,
    pub port: u16,
}

/// What a socket is configured to talk to.
#[derive(Clone, Copy, Debug, PartialEq, Eq)]
pub enum Endpoint {
    /// Nothing is configured.
    Unspecified,
    /// An ICMP identifier, without an address.
    Ident(u16),
    /// An address and a port.
    Udp(ListenEndpoint),
}

impl Endpoint {
    /// An endpoint is specified when it carries an identifier or a port other than zero.
    pub open spec fn specified(self) -> bool {
        match self {
            Endpoint::Unspecified => false,
            Endpoint::Ident(_) => true,
            Endpoint::Udp(listen) => listen.port != 0,
        }
    }

    /// The address a datagram is sent to: the one an address-and-port endpoint names.
    /// The other endpoints name none.
    pub open spec fn destination_address(self) -> Option<IpAddress> {
        match self {
            Endpoint::Udp(listen) => listen.addr,
            _ => None,
        }
    }

    /// Whether a send through this endpoint gets as far as the socket: the
    /// endpoint is specified and names an address.
    pub open spec fn addressed(self) -> bool {
        self.specified() && self.destination_address() is Some
    }

    /// Whether the endpoint is specified.
    #[verifier::when_used_as_spec(specified)]
    pub fn is_specified(self) -> (r: bool)
        ensures
            r == self.specified(),
    {
        match self {
            Endpoint::Unspecified => false,
            Endpoint::Ident(_) => true,
            Endpoint::Udp(listen) => listen.port != 0,
        }
    }

    /// The address a datagram is sent to, if the endpoint names one.
    #[verifier::when_used_as_spec(destination_address)]
    pub fn destination(self) -> (r: Option<IpAddress>)
        ensures
            r == self.destination_address(),
    {
        match self {
            Endpoint::Udp(listen) => listen.addr,
            _ => None,
        }
    }
}

} // verus!
