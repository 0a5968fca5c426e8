//! The steps by which a role gets its sockets ready. Each can fail, and a
//! failure ends what was being set up: the caller is told which step it
//! was, and decides whether to try again. A server binds its discovery
//! socket to the address that `socket_addr` gives, a client to the one that
//! `client_addr` gives; both join the group `MULTICAST_IPV4` on the
//! unspecified interface. A server that is started opens its acceptor on the
//! address that `acceptor_addr` gives and sets it not to block.

use vstd::prelude::*;

verus! {

/// One step of getting the sockets ready.
#[derive(Clone, Copy, Debug, PartialEq, Eq, Structural)]
pub enum SetupStep {
    /// Binding the UDP socket to its address.
    BindUdp,
    /// Setting the socket not to block.
    SetNonBlocking,
    /// Joining the multicast group.
    JoinMulticast,
    /// Opening the acceptor for connections: binding it and setting it not
    /// to block.
    OpenAcceptor,
}

impl SetupStep {
    /// What to say when the step has failed.
    pub open spec fn spec_context(self) -> Seq<char> {
        match self {
            SetupStep::BindUdp => "Couldn't bind to UDP socket"@,
            SetupStep::SetNonBlocking => "Couldn't set udp socket to non-blocking..."@,
            SetupStep::JoinMulticast => "Couldn't join multicast"@,
            SetupStep::OpenAcceptor => "Couldn't open TCP acceptor"@,
        }
    }

    /// The words that name the failed step in an error.
    pub fn context(self) -> (words: &'static str)
        ensures
            words@ == self.spec_context(),
    {
        match self {
            SetupStep::BindUdp => "Couldn't bind to UDP socket",
            SetupStep::SetNonBlocking => "Couldn't set udp socket to non-blocking...",
            SetupStep::JoinMulticast => "Couldn't join multicast",
            SetupStep::OpenAcceptor => "Couldn't open TCP acceptor",
        }
    }
}

} // verus!
