//! The two sequences that grow while a role runs: the connections that a
//! server has accepted, and the servers that a client has heard of. Both
//! only ever grow at the end, so what a reader has seen stays where it was.

use crate::connect::message::{same_text, ServerInfo, ServerInfoView};
use vstd::prelude::*;

verus! {

/// Whether `before` is the beginning of `after`: nothing that was there has
/// changed or moved.
pub open spec fn extends<T>(after: Seq<T>, before: Seq<T>) -> bool {
    before.len() <= after.len() && after.take(before.len() as int) == before
}

/// What extends an extension of a sequence extends the sequence.
pub proof fn lemma_extends_twice<T>(last: Seq<T>, middle: Seq<T>, first: Seq<T>)
    requires
        extends(last, middle),
        extends(middle, first),
    ensures
        extends(last, first),
{
    assert(last.take(first.len() as int) =~= middle.take(first.len() as int));
}

/// The accepted connections, in the order in which they were accepted.
pub struct ConnectionRegistry<C> {
    streams: Vec<C>,
}

impl<C> View for ConnectionRegistry<C> {
    type V = Seq<C>;

    closed spec fn view(&self) -> Seq<C> {
        self.streams@
    }
}

impl<C> ConnectionRegistry<C> {
    /// A registry without connections.
    pub fn new() -> (r: Self)
        ensures
            r@ == Seq::<C>::empty(),
    {
        ConnectionRegistry { streams: Vec::new() }
    }

    /// Adds a connection after those that are there.
    pub fn append(&mut self, stream: C)
        ensures
            final(self)@ == old(self)@.push(stream),
            extends(final(self)@, old(self)@),
    {
        self.streams.push(stream);
        assert(self.streams@.take(old(self)@.len() as int) =~= old(self)@);
    }

    /// The number of connections.
    pub fn len(&self) -> (n: usize)
        ensures
            n == self@.len(),
    {
        self.streams.len()
    }

    /// Whether there is no connection.
    pub fn is_empty(&self) -> (b: bool)
        ensures
            b == (self@.len() == 0),
    {
        self.streams.len() == 0
    }

    /// The connection that was accepted as the `index`-th, counting from 0.
    pub fn get(&self, index: usize) -> (r: Option<&C>)
        ensures
            index < self@.len() ==> r == Some(&self@[index as int]),
            index >= self@.len() ==> r is None,
    {
        if index < self.streams.len() {
            Some(&self.streams[index])
        } else {
            None
        }
    }
}

/// The servers that have answered, in the order in which their replies were
/// heard. A server that answers twice is listed twice.
pub struct DiscoveredServers {
    servers: Vec<ServerInfo>,
}

impl View for DiscoveredServers {
    type V = Seq<ServerInfoView>;

    closed spec fn view(&self) -> Seq<ServerInfoView> {
        self.servers@.map_values(|info: ServerInfo| info@)
    }
}

/// Whether one of the descriptions bears the name `name`.
pub open spec fn names(servers: Seq<ServerInfoView>, name: Seq<char>) -> bool {
    exists|i: int| 0 <= i < servers.len() && (#[trigger] servers[i]).name == name
}

impl DiscoveredServers {
    /// A list without servers.
    pub fn new() -> (r: Self)
        ensures
            r@ == Seq::<ServerInfoView>::empty(),
    {
        let r = DiscoveredServers { servers: Vec::new() };
        assert(r@ =~= Seq::<ServerInfoView>::empty());
        r
    }

    /// Adds a description after those that are there.
    pub fn append(&mut self, info: ServerInfo)
        ensures
            final(self)@ == old(self)@.push(info@),
            extends(final(self)@, old(self)@),
    {
        self.servers.push(info);
        assert(self@ =~= old(self)@.push(info@));
        assert(self@.take(old(self)@.len() as int) =~= old(self)@);
    }

    /// The number of descriptions.
    pub fn len(&self) -> (n: usize)
        ensures
            n == self@.len(),
    {
        self.servers.len()
    }

    /// Whether no server has answered.
    pub fn is_empty(&self) -> (b: bool)
        ensures
            b == (self@.len() == 0),
    {
        self.servers.len() == 0
    }

    /// The description that was heard as the `index`-th, counting from 0.
    pub fn get(&self, index: usize) -> (r: Option<&ServerInfo>)
        ensures
            index < self@.len() ==> (r matches Some(info) && info@ == self@[index as int]),
            index >= self@.len() ==> r is None,
    {
        if index < self.servers.len() {
            Some(&self.servers[index])
        } else {
            None
        }
    }

    /// Whether a server of that name has answered.
    pub fn contains_name(&self, name: &str) -> (b: bool)
        ensures
            b == names(self@, name@),
    {
        let mut i: usize = 0;
        while i < self.servers.len()
            invariant
                i <= self.servers@.len(),
                forall|j: int| 0 <= j < i ==> (#[trigger] self@[j]).name != name@,
            decreases self.servers@.len() - i,
        {
            if same_text(self.servers[i].name(), name) {
                assert(self@[i as int].name == name@);
                return true;
            }
            i += 1;
        }
        false
    }
}

} // verus!
