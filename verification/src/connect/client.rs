//! The client's collector: how it asks for servers, what it keeps of the
//! replies, and how it ends.
//!
//! Like the server's listener, the collector touches no socket and no
//! clock. It names the next thing to do (an action), is told how that went
//! and what time it is (an event), and names the next action. It begins by
//! sending the query. One turn of its loop is then: sleep for the polling
//! interval; send the query again if the last one is five seconds old;
//! receive once without blocking; if a reply came, add the description in
//! it to the list. A request to shut down is noticed between two turns.

use crate::connect::addrs::{group_addr, spec_group_addr};
use crate::connect::message::{
    decoded, message_bytes, query, query_bytes, reply, ConnectionMessage, ConnectionMessageView,
    Datagram, DatagramView, Message, MessageView, ServerInfoView,
};
use crate::connect::registry::{extends, lemma_extends_twice, DiscoveredServers};
use crate::connect::shutdown::ShutdownCoordinator;
use crate::connect::wire::DecodeError;
use vstd::prelude::*;

verus! {

/// The size of the buffer that a datagram is received into.
pub const RECEIVE_BUFFER: usize = 1024;

/// How long the collector sleeps between two polls, in milliseconds.
pub const POLL_INTERVAL_MS: u64 = 500;

/// How old the last query may get before the next is sent, in milliseconds.
pub const REFRESH_INTERVAL_MS: u64 = 5000;

/// What the collector is waiting for.
#[derive(Clone, Copy, Debug, PartialEq, Eq, Structural)]
pub enum CollectorStage {
    /// The first query to have been sent.
    Announcing,
    /// The sleep to be over.
    Sleeping,
    /// A later query to have been sent.
    Refreshing,
    /// The outcome of a receive.
    Receiving,
    /// Nothing: the loop has ended.
    Stopped,
}

/// What happened since the last action. Times are in milliseconds on a
/// clock that does not run backwards.
#[derive(Clone, Copy, Debug, PartialEq, Eq)]
pub enum CollectorEvent<'a> {
    /// The query was handed to the socket at this time. The socket took it
    /// or did not: a query that could not be sent counts as sent, and the
    /// next one goes out when the refresh interval has passed.
    QuerySent {
        /// The time at which it was handed to the socket.
        now_ms: u64,
    },
    /// The sleep is over, and it is this time.
    Slept {
        /// The time at which the sleep ended.
        now_ms: u64,
    },
    /// The receive gave a datagram with these bytes.
    Datagram(&'a [u8]),
    /// The receive would have blocked: nothing has arrived.
    NoDatagram,
    /// The receive failed for another reason.
    ReceiveFailed,
}

/// What to do next.
#[derive(Clone, Copy, Debug, PartialEq, Eq, Structural)]
pub enum CollectorAction {
    /// Send the query to the group.
    Query,
    /// Sleep for this long.
    Sleep {
        /// The length of the sleep in milliseconds.
        millis: u64,
    },
    /// Receive once on the multicast socket, without blocking.
    Receive,
    /// Leave the loop.
    Stop,
}

/// What the collector answers to an event.
#[derive(Clone, Copy, Debug, PartialEq, Eq, Structural)]
pub struct CollectorStep {
    /// What to do next.
    pub action: CollectorAction,
    /// Why the datagram of the event was thrown away, where it was no
    /// message at all.
    pub discarded: Option<DecodeError>,
}

/// A `CollectorEvent` as a mathematical value.
pub enum CollectorEventView {
    /// The query was sent at this time.
    QuerySent {
        /// The time at which it was sent.
        now_ms: u64,
    },
    /// The sleep ended at this time.
    Slept {
        /// The time at which the sleep ended.
        now_ms: u64,
    },
    /// The receive gave a datagram with these bytes.
    Datagram(Seq<u8>),
    /// The receive would have blocked.
    NoDatagram,
    /// The receive failed for another reason.
    ReceiveFailed,
}

impl<'a> View for CollectorEvent<'a> {
    type V = CollectorEventView;

    open spec fn view(&self) -> CollectorEventView {
        match self {
            CollectorEvent::QuerySent { now_ms } => CollectorEventView::QuerySent {
                now_ms: *now_ms,
            },
            CollectorEvent::Slept { now_ms } => CollectorEventView::Slept { now_ms: *now_ms },
            CollectorEvent::Datagram(bytes) => CollectorEventView::Datagram(bytes@),
            CollectorEvent::NoDatagram => CollectorEventView::NoDatagram,
            CollectorEvent::ReceiveFailed => CollectorEventView::ReceiveFailed,
        }
    }
}

/// Whether a query sent at `last_ms` is old enough at `now_ms` for the next
/// to be sent: at least the refresh interval lies between them.
pub open spec fn spec_refresh_due(last_ms: u64, now_ms: u64) -> bool {
    now_ms - last_ms >= REFRESH_INTERVAL_MS
}

/// Tells whether the next query is due.
#[verifier::when_used_as_spec(spec_refresh_due)]
pub fn refresh_due(last_ms: u64, now_ms: u64) -> (due: bool)
    ensures
        due == spec_refresh_due(last_ms, now_ms),
{
    now_ms >= last_ms && now_ms - last_ms >= REFRESH_INTERVAL_MS
}

/// The datagram that asks every server on the group to describe itself.
/// Its bytes are always the same: a client makes it once and sends it each
/// time a query is due.
pub fn query_datagram() -> (datagram: Datagram)
    ensures
        datagram@ == (DatagramView {
            payload: message_bytes(query()),
            destination: spec_group_addr(),
        }),
{
    Datagram { payload: query_bytes(), destination: group_addr() }
}

/// The collector and the servers it has heard of. `H` is the type of the
/// handle of the thread that runs the loop.
pub struct ServerList<H> {
    servers: DiscoveredServers,
    stage: CollectorStage,
    last_query_ms: u64,
    /// The request to shut down and the handle of the thread. A collector
    /// that has stopped was asked to, whatever the coordinator holds.
    coordinator: ShutdownCoordinator<H>,
}

/// A `ServerList` as a mathematical value.
pub struct ServerListView<H> {
    /// The descriptions heard so far, oldest first.
    pub servers: Seq<ServerInfoView>,
    /// What the collector is waiting for.
    pub stage: CollectorStage,
    /// Whether the collector has been asked to shut down.
    pub shutdown: bool,
    /// When the last query was sent.
    pub last_query_ms: u64,
    /// The handle of the thread that runs the loop, while the list keeps
    /// it.
    pub thread: Option<H>,
}

impl<H> View for ServerList<H> {
    type V = ServerListView<H>;

    closed spec fn view(&self) -> ServerListView<H> {
        ServerListView {
            servers: self.servers@,
            stage: self.stage,
            shutdown: match self.stage {
                CollectorStage::Stopped => true,
                _ => self.coordinator@.requested,
            },
            last_query_ms: self.last_query_ms,
            thread: self.coordinator@.handle,
        }
    }
}

impl<H> ServerListView<H> {
    /// Whether the list is one that the program can hold: a collector that
    /// has stopped was asked to.
    pub open spec fn wf(self) -> bool {
        self.stage == CollectorStage::Stopped ==> self.shutdown
    }

    /// The same list, with the collector waiting for something else.
    pub open spec fn at(self, stage: CollectorStage) -> ServerListView<H> {
        ServerListView { stage, ..self }
    }

    /// The action whose outcome the collector is waiting for.
    pub open spec fn pending(self) -> CollectorAction {
        match self.stage {
            CollectorStage::Announcing => CollectorAction::Query,
            CollectorStage::Sleeping => CollectorAction::Sleep { millis: POLL_INTERVAL_MS },
            CollectorStage::Refreshing => CollectorAction::Query,
            CollectorStage::Receiving => CollectorAction::Receive,
            CollectorStage::Stopped => CollectorAction::Stop,
        }
    }

    /// Whether `event` tells the outcome of the action that the collector
    /// is waiting for.
    pub open spec fn expects(self, event: CollectorEventView) -> bool {
        match self.stage {
            CollectorStage::Announcing => event is QuerySent,
            CollectorStage::Sleeping => event is Slept,
            CollectorStage::Refreshing => event is QuerySent,
            CollectorStage::Receiving => event is Datagram || event is NoDatagram
                || event is ReceiveFailed,
            CollectorStage::Stopped => false,
        }
    }

    /// The list after a request to shut down: the request is recorded.
    pub open spec fn shutdown_requested(self) -> ServerListView<H> {
        ServerListView { shutdown: true, ..self }
    }

    /// The list after teardown: the request to shut down is recorded, and
    /// the handle of the thread has left the list.
    pub open spec fn torn_down(self) -> ServerListView<H> {
        ServerListView { shutdown: true, thread: None, ..self }
    }

    /// The list after it was given the handle of its thread: a list that
    /// keeps no handle keeps this one; any other stays as it is.
    pub open spec fn attached(self, handle: H) -> ServerListView<H> {
        if self.thread is None {
            ServerListView { thread: Some(handle), ..self }
        } else {
            self
        }
    }

    /// The collector's answer at `stage`, with nothing thrown away.
    pub open spec fn go(self, stage: CollectorStage) -> (ServerListView<H>, CollectorStep) {
        (self.at(stage), CollectorStep { action: self.at(stage).pending(), discarded: None })
    }

    /// Between two turns of the loop: a collector that was asked to shut
    /// down ends, any other sleeps until the next poll.
    pub open spec fn next_turn(self, discarded: Option<DecodeError>) -> (
        ServerListView<H>,
        CollectorStep,
    ) {
        if self.shutdown {
            (
                self.at(CollectorStage::Stopped),
                CollectorStep { action: CollectorAction::Stop, discarded },
            )
        } else {
            (
                self.at(CollectorStage::Sleeping),
                CollectorStep {
                    action: CollectorAction::Sleep { millis: POLL_INTERVAL_MS },
                    discarded,
                },
            )
        }
    }

    /// What a datagram leads to: the description in a reply joins the list;
    /// any other message is passed over; bytes that are no message are
    /// thrown away. Then the turn is over.
    pub open spec fn on_datagram(self, bytes: Seq<u8>) -> (ServerListView<H>, CollectorStep) {
        match decoded(bytes) {
            Ok(MessageView::Connection(ConnectionMessageView::ServerInfo(info))) => ServerListView {
                servers: self.servers.push(info),
                ..self
            }.next_turn(None),
            Ok(_) => self.next_turn(None),
            Err(e) => self.next_turn(Some(e)),
        }
    }

    /// The collector's answer to an event, and the list after it. An event
    /// that does not tell the outcome of the pending action changes
    /// nothing, and the pending action is named again.
    pub open spec fn step(self, event: CollectorEventView) -> (ServerListView<H>, CollectorStep) {
        if !self.expects(event) {
            (self, CollectorStep { action: self.pending(), discarded: None })
        } else {
            match event {
                CollectorEventView::QuerySent { now_ms } => {
                    let sent = ServerListView { last_query_ms: now_ms, ..self };
                    if self.stage == CollectorStage::Announcing {
                        sent.next_turn(None)
                    } else {
                        sent.go(CollectorStage::Receiving)
                    }
                },
                CollectorEventView::Slept { now_ms } => if spec_refresh_due(
                    self.last_query_ms,
                    now_ms,
                ) {
                    self.go(CollectorStage::Refreshing)
                } else {
                    self.go(CollectorStage::Receiving)
                },
                CollectorEventView::Datagram(bytes) => self.on_datagram(bytes),
                CollectorEventView::NoDatagram => self.next_turn(None),
                CollectorEventView::ReceiveFailed => self.next_turn(None),
            }
        }
    }

    /// The list after a run of events, the oldest first.
    pub open spec fn run(self, events: Seq<CollectorEventView>) -> ServerListView<H>
        decreases events.len(),
    {
        if events.len() == 0 {
            self
        } else {
            self.step(events[0]).0.run(events.drop_first())
        }
    }

    /// How many outcomes the collector still waits for before its turn is
    /// over, at most: a sleep, a query, a receive.
    pub open spec fn outcomes_left(self) -> nat {
        match self.stage {
            CollectorStage::Announcing => 1,
            CollectorStage::Sleeping => 3,
            CollectorStage::Refreshing => 2,
            CollectorStage::Receiving => 1,
            CollectorStage::Stopped => 0,
        }
    }
}

impl<H> ServerList<H> {
    /// A list without servers, whose collector is about to send the first
    /// query: `pending` is `Query`.
    pub fn new() -> (list: Self)
        ensures
            list@ == (ServerListView::<H> {
                servers: Seq::empty(),
                stage: CollectorStage::Announcing,
                shutdown: false,
                last_query_ms: 0,
                thread: None,
            }),
            list@.wf(),
    {
        ServerList {
            servers: DiscoveredServers::new(),
            stage: CollectorStage::Announcing,
            last_query_ms: 0,
            coordinator: ShutdownCoordinator::new(),
        }
    }

    /// The servers heard so far, oldest first.
    pub fn servers(&self) -> (servers: &DiscoveredServers)
        ensures
            servers@ == self@.servers,
    {
        &self.servers
    }

    /// What the collector is waiting for.
    pub fn stage(&self) -> (stage: CollectorStage)
        ensures
            stage == self@.stage,
    {
        self.stage
    }

    /// Whether the collector was asked to shut down.
    pub fn shutdown_requested(&self) -> (requested: bool)
        ensures
            requested == self@.shutdown,
    {
        match self.stage {
            CollectorStage::Stopped => true,
            _ => self.coordinator.requested(),
        }
    }

    /// Whether the list keeps the handle of a thread.
    pub fn keeps_thread(&self) -> (kept: bool)
        ensures
            kept == self@.thread is Some,
    {
        self.coordinator.keeps_handle()
    }

    /// The action whose outcome the collector is waiting for.
    pub fn pending(&self) -> (action: CollectorAction)
        ensures
            action == self@.pending(),
    {
        match self.stage {
            CollectorStage::Announcing => CollectorAction::Query,
            CollectorStage::Sleeping => CollectorAction::Sleep { millis: POLL_INTERVAL_MS },
            CollectorStage::Refreshing => CollectorAction::Query,
            CollectorStage::Receiving => CollectorAction::Receive,
            CollectorStage::Stopped => CollectorAction::Stop,
        }
    }

    /// Gives the list the handle of the thread that runs its loop. A list
    /// that keeps no handle keeps this one, and the result is `None`. A
    /// list that keeps one stays as it is and gives the handle back.
    pub fn attach_thread(&mut self, handle: H) -> (refused: Option<H>)
        ensures
            final(self)@ == old(self)@.attached(handle),
            old(self)@.thread is None ==> refused is None,
            old(self)@.thread is Some ==> refused == Some(handle),
    {
        self.coordinator.attach(handle)
    }

    /// Asks the collector to shut down. The loop ends when its turn is
    /// over. The handle of the thread stays in the list.
    pub fn request_shutdown(&mut self)
        ensures
            final(self)@ == old(self)@.shutdown_requested(),
            final(self)@.wf(),
    {
        self.coordinator.request();
    }

    /// Tears the list down: asks the collector to shut down and gives the
    /// handle of its thread, which the caller then waits for. The handle
    /// leaves the list, so a second teardown gives none.
    pub fn teardown(&mut self) -> (handle: Option<H>)
        ensures
            final(self)@ == old(self)@.torn_down(),
            final(self)@.wf(),
            handle == old(self)@.thread,
    {
        self.coordinator.teardown()
    }

    /// The collector's answer at `stage`.
    fn go(&mut self, stage: CollectorStage) -> (step: CollectorStep)
        requires
            old(self)@.stage != CollectorStage::Stopped,
            stage != CollectorStage::Stopped,
        ensures
            (final(self)@, step) == old(self)@.go(stage),
    {
        self.stage = stage;
        CollectorStep { action: self.pending(), discarded: None }
    }

    /// Between two turns of the loop.
    fn next_turn(&mut self, discarded: Option<DecodeError>) -> (step: CollectorStep)
        requires
            old(self)@.stage != CollectorStage::Stopped,
        ensures
            (final(self)@, step) == old(self)@.next_turn(discarded),
    {
        if self.coordinator.requested() {
            self.stage = CollectorStage::Stopped;
            CollectorStep { action: CollectorAction::Stop, discarded }
        } else {
            self.stage = CollectorStage::Sleeping;
            CollectorStep { action: CollectorAction::Sleep { millis: POLL_INTERVAL_MS }, discarded }
        }
    }

    /// What a datagram leads to.
    fn on_datagram(&mut self, bytes: &[u8]) -> (step: CollectorStep)
        requires
            old(self)@.stage == CollectorStage::Receiving,
        ensures
            (final(self)@, step) == old(self)@.on_datagram(bytes@),
    {
        match Message::decode(bytes) {
            Ok(Message::Connection(ConnectionMessage::ServerInfo(info))) => {
                self.servers.append(info);
                self.next_turn(None)
            },
            Ok(_) => self.next_turn(None),
            Err(e) => self.next_turn(Some(e)),
        }
    }

    /// Takes in what happened and names the next action.
    pub fn step(&mut self, event: CollectorEvent<'_>) -> (step: CollectorStep)
        ensures
            (final(self)@, step) == old(self)@.step(event@),
            final(self)@.wf(),
    {
        match (self.stage, event) {
            (CollectorStage::Announcing, CollectorEvent::QuerySent { now_ms }) => {
                self.last_query_ms = now_ms;
                self.next_turn(None)
            },
            (CollectorStage::Refreshing, CollectorEvent::QuerySent { now_ms }) => {
                self.last_query_ms = now_ms;
                self.go(CollectorStage::Receiving)
            },
            (CollectorStage::Sleeping, CollectorEvent::Slept { now_ms }) => {
                if refresh_due(self.last_query_ms, now_ms) {
                    self.go(CollectorStage::Refreshing)
                } else {
                    self.go(CollectorStage::Receiving)
                }
            },
            (CollectorStage::Receiving, CollectorEvent::Datagram(bytes)) => self.on_datagram(bytes),
            (CollectorStage::Receiving, CollectorEvent::NoDatagram) => self.next_turn(None),
            (CollectorStage::Receiving, CollectorEvent::ReceiveFailed) => self.next_turn(None),
            _ => CollectorStep { action: self.pending(), discarded: None },
        }
    }
}


/// The client's side of the rendezvous: the list of the servers it has
/// heard of, and the collector that fills it. Choosing a server from the
/// list and connecting to it is left to the caller.
pub struct Client<H> {
    server_list: ServerList<H>,
}

impl<H> View for Client<H> {
    type V = ServerListView<H>;

    closed spec fn view(&self) -> ServerListView<H> {
        self.server_list@
    }
}

impl<H> Client<H> {
    /// A client that has heard of no server and is about to send its first
    /// query.
    pub fn new() -> (client: Self)
        ensures
            client@ == (ServerListView::<H> {
                servers: Seq::empty(),
                stage: CollectorStage::Announcing,
                shutdown: false,
                last_query_ms: 0,
                thread: None,
            }),
            client@.pending() == CollectorAction::Query,
            client@.wf(),
    {
        Client { server_list: ServerList::new() }
    }

    /// The list and its collector.
    pub fn server_list(&self) -> (list: &ServerList<H>)
        ensures
            list@ == self@,
    {
        &self.server_list
    }

    /// The servers heard so far, oldest first.
    pub fn servers(&self) -> (servers: &DiscoveredServers)
        ensures
            servers@ == self@.servers,
    {
        self.server_list.servers()
    }

    /// The action whose outcome the collector is waiting for.
    pub fn pending(&self) -> (action: CollectorAction)
        ensures
            action == self@.pending(),
    {
        self.server_list.pending()
    }

    /// Takes in what happened and names the next action.
    pub fn step(&mut self, event: CollectorEvent<'_>) -> (step: CollectorStep)
        ensures
            (final(self)@, step) == old(self)@.step(event@),
            final(self)@.wf(),
    {
        self.server_list.step(event)
    }

    /// Gives the client the handle of the thread that runs its collector.
    /// A client that keeps no handle keeps this one, and the result is
    /// `None`. A client that keeps one stays as it is and gives the handle
    /// back.
    pub fn attach_thread(&mut self, handle: H) -> (refused: Option<H>)
        ensures
            final(self)@ == old(self)@.attached(handle),
            old(self)@.thread is None ==> refused is None,
            old(self)@.thread is Some ==> refused == Some(handle),
    {
        self.server_list.attach_thread(handle)
    }

    /// Asks the collector to shut down. The handle of the thread stays in
    /// the client.
    pub fn request_shutdown(&mut self)
        ensures
            final(self)@ == old(self)@.shutdown_requested(),
            final(self)@.wf(),
    {
        self.server_list.request_shutdown()
    }

    /// Tears the client down: asks the collector to shut down and gives
    /// the handle of its thread, which the caller then waits for. The
    /// handle leaves the client, so a second teardown gives none.
    pub fn teardown(&mut self) -> (handle: Option<H>)
        ensures
            final(self)@ == old(self)@.torn_down(),
            final(self)@.wf(),
            handle == old(self)@.thread,
    {
        self.server_list.teardown()
    }
}

/// No event changes whether the collector was asked to shut down, and each
/// leaves a list that the program can hold.
pub proof fn lemma_collector_keeps_settings<H>(s: ServerListView<H>, event: CollectorEventView)
    ensures
        s.step(event).0.shutdown == s.shutdown,
        s.wf() ==> s.step(event).0.wf(),
        s.wf() ==> s.shutdown_requested().wf(),
        s.wf() ==> s.torn_down().wf(),
{
}

/// The handle of the thread leaves the list by teardown only, and with the
/// request to shut down: events and a request leave it where it is;
/// teardown gives it and leaves a list that was asked to shut down and
/// keeps no handle, so that a second teardown gives none.
pub proof fn lemma_collector_thread_leaves_with_request<H>(
    s: ServerListView<H>,
    event: CollectorEventView,
)
    ensures
        s.step(event).0.thread == s.thread,
        s.shutdown_requested().thread == s.thread,
        s.torn_down().shutdown,
        s.torn_down().thread is None,
        s.torn_down().torn_down() == s.torn_down(),
{
}

/// The list only grows, and by one at a time: an event leaves the
/// descriptions that are there where they are, and adds one at the end
/// exactly when it is a datagram that the collector was waiting for and
/// that begins with a reply. The description added is the one in the reply;
/// nothing is left out because it is there already.
pub proof fn lemma_collector_appends<H>(s: ServerListView<H>, event: CollectorEventView)
    ensures
        extends(s.step(event).0.servers, s.servers),
        s.step(event).0.servers.len() <= s.servers.len() + 1,
        s.step(event).0.servers.len() == s.servers.len() + 1 <==> s.stage
            == CollectorStage::Receiving && event is Datagram && decoded(event->Datagram_0) is Ok
            && decoded(event->Datagram_0)->Ok_0 matches MessageView::Connection(
            ConnectionMessageView::ServerInfo(_),
        ),
        forall|info: ServerInfoView|
            s.stage == CollectorStage::Receiving && event is Datagram && decoded(
                event->Datagram_0,
            ) == Ok::<_, DecodeError>(reply(info)) ==> s.step(event).0.servers == s.servers.push(
                info,
            ),
{
    let after = s.step(event).0.servers;
    assert(after.take(s.servers.len() as int) =~= s.servers);
}

/// The query goes out again exactly when the last one is five seconds old:
/// at the end of a sleep the collector asks for a query if at least the
/// refresh interval has passed since the last was sent, and for a receive
/// if not. When the query has been sent, the time of the last query is the
/// time of that one.
pub proof fn lemma_refresh_when_due<H>(s: ServerListView<H>, now_ms: u64)
    ensures
        s.stage == CollectorStage::Sleeping ==> (s.step(
            CollectorEventView::Slept { now_ms },
        ).1.action == CollectorAction::Query <==> now_ms - s.last_query_ms
            >= REFRESH_INTERVAL_MS),
        s.stage == CollectorStage::Sleeping ==> (s.step(
            CollectorEventView::Slept { now_ms },
        ).1.action == CollectorAction::Receive <==> now_ms - s.last_query_ms
            < REFRESH_INTERVAL_MS),
        s.stage == CollectorStage::Announcing || s.stage == CollectorStage::Refreshing ==> s.step(
            CollectorEventView::QuerySent { now_ms },
        ).0.last_query_ms == now_ms,
{
}

/// Whatever happens, in whatever order: the list stays one that the
/// program can hold; the collector has been asked to shut down or has not,
/// as before; the descriptions that were there are where they were, and at
/// most one has been added for each event.
pub proof fn lemma_collector_run_keeps_record<H>(s: ServerListView<H>, events: Seq<CollectorEventView>)
    requires
        s.wf(),
    ensures
        s.run(events).wf(),
        s.run(events).shutdown == s.shutdown,
        s.run(events).thread == s.thread,
        extends(s.run(events).servers, s.servers),
        s.run(events).servers.len() <= s.servers.len() + events.len(),
    decreases events.len(),
{
    if events.len() == 0 {
        assert(s.servers.take(s.servers.len() as int) =~= s.servers);
    } else {
        let next = s.step(events[0]).0;
        lemma_collector_keeps_settings(s, events[0]);
        lemma_collector_appends(s, events[0]);
        lemma_collector_run_keeps_record(next, events.drop_first());
        lemma_extends_twice(s.run(events).servers, next.servers, s.servers);
    }
}

/// The collector's answer names the action that it then waits for.
pub proof fn lemma_collector_answer_is_pending<H>(s: ServerListView<H>, event: CollectorEventView)
    ensures
        s.step(event).1.action == s.step(event).0.pending(),
{
}

/// A collector that has stopped stays stopped: whatever the event, nothing
/// changes and the answer is to leave the loop.
pub proof fn lemma_collector_stopped_is_final<H>(s: ServerListView<H>, event: CollectorEventView)
    requires
        s.stage == CollectorStage::Stopped,
    ensures
        s.step(event).0 == s,
        s.step(event).1.action == CollectorAction::Stop,
{
}

/// A collector that was not asked to shut down goes on: no event ends its
/// loop.
pub proof fn lemma_collector_goes_on<H>(s: ServerListView<H>, event: CollectorEventView)
    requires
        !s.shutdown,
        s.stage != CollectorStage::Stopped,
    ensures
        s.step(event).0.stage != CollectorStage::Stopped,
        s.step(event).1.action != CollectorAction::Stop,
{
}

/// Once asked to shut down, the collector is nearer to its end with every
/// outcome that it is told, and it never asks for another sleep: at most
/// the sleep that is under way stands between the request and the end.
pub proof fn lemma_collector_shutdown_progress<H>(s: ServerListView<H>, event: CollectorEventView)
    requires
        s.shutdown,
        s.expects(event),
    ensures
        s.step(event).0.outcomes_left() < s.outcomes_left(),
        !(s.step(event).1.action is Sleep),
        s.stage == CollectorStage::Receiving || s.stage == CollectorStage::Announcing ==> s.step(
            event,
        ).0.stage == CollectorStage::Stopped && s.step(event).1.action == CollectorAction::Stop,
{
}

/// Teardown does not hang: a collector that was asked to shut down has
/// stopped after at most three outcomes, whatever they are.
pub proof fn lemma_collector_shutdown_within_three<H>(s: ServerListView<H>,
    e1: CollectorEventView,
    e2: CollectorEventView,
    e3: CollectorEventView,
)
    requires
        s.shutdown,
        s.stage != CollectorStage::Stopped ==> s.expects(e1),
        s.step(e1).0.stage != CollectorStage::Stopped ==> s.step(e1).0.expects(e2),
        s.step(e1).0.step(e2).0.stage != CollectorStage::Stopped ==> s.step(e1).0.step(
            e2,
        ).0.expects(e3),
    ensures
        s.step(e1).0.step(e2).0.step(e3).0.stage == CollectorStage::Stopped,
{
    let s1 = s.step(e1).0;
    let s2 = s1.step(e2).0;
    if s.stage != CollectorStage::Stopped {
        lemma_collector_shutdown_progress(s, e1);
        if s1.stage != CollectorStage::Stopped {
            lemma_collector_shutdown_progress(s1, e2);
            if s2.stage != CollectorStage::Stopped {
                lemma_collector_shutdown_progress(s2, e3);
            }
        }
    }
}

} // verus!
