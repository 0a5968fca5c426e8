//! The fixed addresses of the rendezvous: the multicast group, the port that
//! both roles use, and the address that a receive socket is bound to.

use vstd::prelude::*;

verus! {

/// UDP port of the discovery traffic, the same for both roles.
pub const PORT: u16 = 7678;

/// The multicast group on which queries and replies travel: 224.0.0.123.
pub const MULTICAST_IPV4: [u8; 4] = [224, 0, 0, 123];

/// The IPv4 address that stands for "any local address": 0.0.0.0.
pub const UNSPECIFIED_IPV4: [u8; 4] = [0, 0, 0, 0];

/// An address and a port: where a datagram goes, or where a server can be
/// reached.
#[derive(Clone, Copy, Debug, PartialEq, Eq)]
pub enum Endpoint {
    /// The four octets of an IPv4 address, and the port.
    V4([u8; 4], u16),
    /// The sixteen octets of an IPv6 address, and the port.
    V6([u8; 16], u16),
}

/// Whether the four octets lie in 224.0.0.0/4, the block of IPv4 multicast
/// addresses: those whose first octet is between 224 and 239.
pub open spec fn spec_is_multicast(octets: [u8; 4]) -> bool {
    224 <= octets[0] <= 239
}

/// Tells whether an IPv4 address is a multicast address.
#[verifier::when_used_as_spec(spec_is_multicast)]
pub fn is_multicast(octets: [u8; 4]) -> (b: bool)
    ensures
        b == spec_is_multicast(octets),
{
    224 <= octets[0] && octets[0] <= 239
}

/// The address that a receive socket is bound to: the group itself where
/// the platform lets a socket be bound to a multicast address, the
/// unspecified address where it does not.
pub open spec fn spec_bind_server(multicast_bind: bool) -> [u8; 4] {
    if multicast_bind {
        MULTICAST_IPV4
    } else {
        UNSPECIFIED_IPV4
    }
}

/// The address to bind a receive socket to, given whether the platform
/// allows binding to a multicast address.
#[verifier::when_used_as_spec(spec_bind_server)]
pub fn bind_server(multicast_bind: bool) -> (a: [u8; 4])
    ensures
        a == spec_bind_server(multicast_bind),
{
    if multicast_bind {
        MULTICAST_IPV4
    } else {
        UNSPECIFIED_IPV4
    }
}

/// The endpoint that the server's discovery socket is bound to.
pub open spec fn spec_socket_addr(multicast_bind: bool) -> Endpoint {
    Endpoint::V4(spec_bind_server(multicast_bind), PORT)
}

/// The endpoint to bind the server's discovery socket to.
#[verifier::when_used_as_spec(spec_socket_addr)]
pub fn socket_addr(multicast_bind: bool) -> (e: Endpoint)
    ensures
        e == spec_socket_addr(multicast_bind),
{
    Endpoint::V4(bind_server(multicast_bind), PORT)
}

/// The endpoint that every query and every reply is sent to: the group, on
/// the discovery port.
pub open spec fn spec_group_addr() -> Endpoint {
    Endpoint::V4(MULTICAST_IPV4, PORT)
}

/// The endpoint to send queries and replies to.
#[verifier::when_used_as_spec(spec_group_addr)]
pub fn group_addr() -> (e: Endpoint)
    ensures
        e == spec_group_addr(),
        e matches Endpoint::V4(octets, port) && spec_is_multicast(octets) && port == PORT,
{
    Endpoint::V4(MULTICAST_IPV4, PORT)
}

/// The group address is an IPv4 multicast address.
pub proof fn lemma_group_is_multicast()
    ensures
        spec_is_multicast(MULTICAST_IPV4),
        MULTICAST_IPV4@ == seq![224u8, 0u8, 0u8, 123u8],
{
    assert(MULTICAST_IPV4@ =~= seq![224u8, 0u8, 0u8, 123u8]);
}

/// The endpoint on which the server accepts connections: any local
/// address, and port 0, for which the system chooses a free port.
pub open spec fn spec_acceptor_addr() -> Endpoint {
    Endpoint::V4(UNSPECIFIED_IPV4, 0)
}

/// The endpoint to open the server's acceptor on.
#[verifier::when_used_as_spec(spec_acceptor_addr)]
pub fn acceptor_addr() -> (e: Endpoint)
    ensures
        e == spec_acceptor_addr(),
{
    Endpoint::V4(UNSPECIFIED_IPV4, 0)
}

/// The endpoint that a client's discovery socket is bound to: any local
/// address, and port 0, for which the system chooses a free port.
pub open spec fn spec_client_addr() -> Endpoint {
    Endpoint::V4(UNSPECIFIED_IPV4, 0)
}

/// The endpoint to bind a client's discovery socket to.
#[verifier::when_used_as_spec(spec_client_addr)]
pub fn client_addr() -> (e: Endpoint)
    ensures
        e == spec_client_addr(),
{
    Endpoint::V4(UNSPECIFIED_IPV4, 0)
}

} // verus!
