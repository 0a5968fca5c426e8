//! What the two roles achieve together.

use crate::connect::addrs::{spec_group_addr, spec_is_multicast, Endpoint, PORT};
use crate::connect::client::{self, CollectorEventView, CollectorStage, ServerListView};
use crate::connect::message::{
    lemma_message_encode_decode, lemma_message_length, message_bytes, query, reply,
};
use vstd::utf8::encode_utf8;
use crate::connect::registry::names;
use crate::connect::server::{
    self, ListenerActionView, ListenerEventView, ListenerStage, ServerView,
};
use vstd::prelude::*;

verus! {

/// A client finds a server: when a listening server receives the query,
/// it sends its description to the multicast group, and when a collecting
/// client receives what the server sent, the server's description is the
/// newest entry of the client's list, which then holds an entry of the
/// server's name.
pub proof fn lemma_query_finds_server<C, H, G>(server: ServerView<C, H>, client: ServerListView<G>)
    requires
        server.wf(),
        server.stage == ListenerStage::Receiving,
        client.stage == CollectorStage::Receiving,
    ensures
        server.step(ListenerEventView::Datagram(message_bytes(query()))).1.action
            == ListenerActionView::Reply(server.answer()),
        server.answer().destination matches Endpoint::V4(octets, port) && spec_is_multicast(octets)
            && port == PORT,
        client.step(CollectorEventView::Datagram(server.answer().payload)).0.servers
            == client.servers.push(server.info),
        names(
            client.step(CollectorEventView::Datagram(server.answer().payload)).0.servers,
            server.info.name,
        ),
{
    lemma_message_encode_decode(query());
    lemma_message_encode_decode(reply(server.info));
    let heard = client.step(CollectorEventView::Datagram(server.answer().payload)).0.servers;
    assert(heard[client.servers.len() as int].name == server.info.name);
}

/// A reply is received whole: the receive buffers of both roles hold the
/// reply of every server whose name takes at most 960 bytes in UTF-8.
pub proof fn lemma_reply_fits_buffers<C, H>(server: ServerView<C, H>)
    requires
        encode_utf8(server.info.name).len() <= 960,
    ensures
        server.answer().payload.len() <= server::RECEIVE_BUFFER,
        server.answer().payload.len() <= client::RECEIVE_BUFFER,
{
    lemma_message_length(reply(server.info));
}

/// Replies start no replies: a server that hears a reply, its own or
/// another server's, sends nothing.
pub proof fn lemma_reply_is_not_answered<C, H, D, G>(server: ServerView<C, H>, other: ServerView<D, G>)
    requires
        other.wf(),
        server.stage == ListenerStage::Receiving,
    ensures
        server.step(ListenerEventView::Datagram(other.answer().payload)).1.action
            == ListenerActionView::Accept,
        server.step(ListenerEventView::Datagram(other.answer().payload)).1.discarded is None,
{
    lemma_message_encode_decode(reply(other.info));
}

/// Queries fill no list: a client that hears a query, its own or another
/// client's, adds nothing.
pub proof fn lemma_query_is_not_collected<H>(client: ServerListView<H>)
    requires
        client.stage == CollectorStage::Receiving,
    ensures
        client.step(CollectorEventView::Datagram(message_bytes(query()))).0.servers
            == client.servers,
        client.step(CollectorEventView::Datagram(message_bytes(query()))).1.discarded is None,
{
    lemma_message_encode_decode(query());
}

} // verus!
