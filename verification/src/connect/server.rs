//! The server's listener: what it does with each datagram and each
//! connection attempt, and how it ends.
//!
//! The listener itself touches no socket. It is a state machine: it names
//! the next thing to do on the network (an action), is told how that went
//! (an event), and names the next action. Whoever owns the sockets runs the
//! loop. A listener is started once the acceptor is open, on which clients
//! connect when they have found the server; if the acceptor cannot be
//! opened, the start fails, the caller is told why, and the listener stays
//! idle. One turn of the loop is: receive once without blocking; if a query
//! came, send the server's description to the group; accept once without
//! blocking and keep the connection if there is one. A request to shut down
//! is noticed between two turns.

use crate::connect::addrs::{group_addr, spec_group_addr};
use crate::connect::message::{
    decoded, lemma_message_round_trip, message_bytes, query, reply, reply_bytes,
    ConnectionMessage, Datagram, DatagramView, Message, ServerInfo, ServerInfoView,
};
use crate::connect::registry::{extends, lemma_extends_twice, ConnectionRegistry};
use crate::connect::setup::SetupStep;
use crate::connect::shutdown::ShutdownCoordinator;
use crate::connect::wire::DecodeError;
use vstd::prelude::*;

verus! {

/// The size of the buffer that a datagram is received into.
pub const RECEIVE_BUFFER: usize = 1000;

/// Where the listener stands in its life.
#[derive(Clone, Copy, Debug, PartialEq, Eq, Structural)]
pub enum Phase {
    /// Made, not started: nothing is received or accepted.
    Idle,
    /// Started: the acceptor is open and the loop runs.
    Listening,
    /// Asked to shut down: the loop finishes its turn.
    ShuttingDown,
    /// The loop has ended, or will never run.
    Stopped,
}

/// What the listener is waiting for.
#[derive(Clone, Copy, Debug, PartialEq, Eq, Structural)]
pub enum ListenerStage {
    /// To be started.
    Idle,
    /// The outcome of a receive.
    Receiving,
    /// The reply to have been sent.
    Replying,
    /// The outcome of an accept.
    Accepting,
    /// Nothing: the loop has ended, or will never run.
    Stopped,
}

/// Why a listener was not started.
#[derive(Clone, Copy, Debug, PartialEq, Eq, Structural)]
pub enum StartError {
    /// The listener is not idle: it was started before, or shut down.
    NotIdle,
    /// A step of getting the sockets ready has failed.
    Setup(SetupStep),
}

/// What happened on the network since the last action.
#[derive(Debug, PartialEq, Eq)]
pub enum ListenerEvent<'a, C> {
    /// The receive gave a datagram with these bytes.
    Datagram(&'a [u8]),
    /// The receive would have blocked: nothing has arrived.
    NoDatagram,
    /// The receive failed for another reason.
    ReceiveFailed,
    /// The reply was handed to the socket, which took it or did not.
    ReplySent,
    /// The accept gave this connection.
    Accepted(C),
    /// The accept would have blocked, or failed.
    NoConnection,
}

/// What to do next on the network.
#[derive(Debug, PartialEq, Eq)]
pub enum ListenerAction {
    /// Receive once on the multicast socket, without blocking.
    Receive,
    /// Send this datagram from the multicast socket.
    Reply(Datagram),
    /// Accept once on the acceptor, without blocking.
    Accept,
    /// Leave the loop.
    Stop,
}

/// What the listener answers to an event.
#[derive(Debug, PartialEq, Eq)]
pub struct ListenerStep {
    /// What to do next.
    pub action: ListenerAction,
    /// Why the datagram of the event was thrown away, where it was no
    /// message at all.
    pub discarded: Option<DecodeError>,
}

/// A `ListenerEvent` as a mathematical value.
pub enum ListenerEventView<C> {
    /// The receive gave a datagram with these bytes.
    Datagram(Seq<u8>),
    /// The receive would have blocked.
    NoDatagram,
    /// The receive failed for another reason.
    ReceiveFailed,
    /// The reply was handed to the socket.
    ReplySent,
    /// The accept gave this connection.
    Accepted(C),
    /// The accept gave none.
    NoConnection,
}

/// A `ListenerAction` as a mathematical value.
pub enum ListenerActionView {
    /// Receive once.
    Receive,
    /// Send this datagram.
    Reply(DatagramView),
    /// Accept once.
    Accept,
    /// Leave the loop.
    Stop,
}

/// A `ListenerStep` as a mathematical value.
pub struct ListenerStepView {
    /// What to do next.
    pub action: ListenerActionView,
    /// Why the datagram of the event was thrown away.
    pub discarded: Option<DecodeError>,
}

impl<'a, C> View for ListenerEvent<'a, C> {
    type V = ListenerEventView<C>;

    open spec fn view(&self) -> ListenerEventView<C> {
        match self {
            ListenerEvent::Datagram(bytes) => ListenerEventView::Datagram(bytes@),
            ListenerEvent::NoDatagram => ListenerEventView::NoDatagram,
            ListenerEvent::ReceiveFailed => ListenerEventView::ReceiveFailed,
            ListenerEvent::ReplySent => ListenerEventView::ReplySent,
            ListenerEvent::Accepted(stream) => ListenerEventView::Accepted(*stream),
            ListenerEvent::NoConnection => ListenerEventView::NoConnection,
        }
    }
}

impl View for ListenerAction {
    type V = ListenerActionView;

    open spec fn view(&self) -> ListenerActionView {
        match self {
            ListenerAction::Receive => ListenerActionView::Receive,
            ListenerAction::Reply(datagram) => ListenerActionView::Reply(datagram@),
            ListenerAction::Accept => ListenerActionView::Accept,
            ListenerAction::Stop => ListenerActionView::Stop,
        }
    }
}

impl View for ListenerStep {
    type V = ListenerStepView;

    open spec fn view(&self) -> ListenerStepView {
        ListenerStepView { action: self.action@, discarded: self.discarded }
    }
}

/// The server's side of the rendezvous. `C` is the type of an accepted
/// connection, `H` that of the handle of the thread that runs the loop.
pub struct Server<C, H> {
    info: ServerInfo,
    connections: ConnectionRegistry<C>,
    /// What the listener is waiting for. An idle listener that was asked to
    /// shut down counts as stopped, whatever this field holds.
    stage: ListenerStage,
    coordinator: ShutdownCoordinator<H>,
}

/// A `Server` as a mathematical value.
pub struct ServerView<C, H> {
    /// What the server says of itself.
    pub info: ServerInfoView,
    /// The connections accepted so far, oldest first.
    pub connections: Seq<C>,
    /// What the listener is waiting for.
    pub stage: ListenerStage,
    /// Whether the listener has been asked to shut down.
    pub shutdown: bool,
    /// The handle of the thread that runs the loop, while the server keeps
    /// it.
    pub thread: Option<H>,
}

impl<C, H> View for Server<C, H> {
    type V = ServerView<C, H>;

    closed spec fn view(&self) -> ServerView<C, H> {
        ServerView {
            info: self.info@,
            connections: self.connections@,
            stage: if self.stage == ListenerStage::Idle && self.coordinator@.requested {
                ListenerStage::Stopped
            } else {
                self.stage
            },
            shutdown: self.coordinator@.requested,
            thread: self.coordinator@.handle,
        }
    }
}

impl<C, H> ServerView<C, H> {
    /// Whether the server is one that the program can hold: its description
    /// can be written, and a listener that waits to be started was not
    /// asked to shut down.
    pub open spec fn wf(self) -> bool {
        &&& self.info.wf()
        &&& self.stage == ListenerStage::Idle ==> !self.shutdown
    }

    /// Where the listener stands in its life.
    pub open spec fn phase(self) -> Phase {
        match self.stage {
            ListenerStage::Idle => Phase::Idle,
            ListenerStage::Stopped => Phase::Stopped,
            _ => if self.shutdown {
                Phase::ShuttingDown
            } else {
                Phase::Listening
            },
        }
    }

    /// The same server, waiting for something else.
    pub open spec fn at(self, stage: ListenerStage) -> ServerView<C, H> {
        ServerView { stage, ..self }
    }

    /// The datagram that answers a query: the server's description as a
    /// reply, sent to the whole group.
    pub open spec fn answer(self) -> DatagramView {
        DatagramView { payload: message_bytes(reply(self.info)), destination: spec_group_addr() }
    }

    /// The action whose outcome the listener is waiting for; `Stop` where
    /// no loop is to run.
    pub open spec fn pending(self) -> ListenerActionView {
        match self.stage {
            ListenerStage::Idle => ListenerActionView::Stop,
            ListenerStage::Receiving => ListenerActionView::Receive,
            ListenerStage::Replying => ListenerActionView::Reply(self.answer()),
            ListenerStage::Accepting => ListenerActionView::Accept,
            ListenerStage::Stopped => ListenerActionView::Stop,
        }
    }

    /// Whether `event` tells the outcome of the action that the listener is
    /// waiting for.
    pub open spec fn expects(self, event: ListenerEventView<C>) -> bool {
        match self.stage {
            ListenerStage::Receiving => event is Datagram || event is NoDatagram
                || event is ReceiveFailed,
            ListenerStage::Replying => event is ReplySent,
            ListenerStage::Accepting => event is Accepted || event is NoConnection,
            _ => false,
        }
    }

    /// What `start_receive_messages` answers: the first action of the loop,
    /// a receive, for an idle listener whose acceptor is open; the failed
    /// step for an idle listener whose acceptor could not be opened; and
    /// for any other listener that it is not idle.
    pub open spec fn start_result(self, acceptor_open: bool) -> Result<
        ListenerActionView,
        StartError,
    > {
        if self.stage != ListenerStage::Idle {
            Err(StartError::NotIdle)
        } else if !acceptor_open {
            Err(StartError::Setup(SetupStep::OpenAcceptor))
        } else {
            Ok(ListenerActionView::Receive)
        }
    }

    /// The server after `start_receive_messages`: an idle listener whose
    /// acceptor is open waits for its first receive; any other stays as it
    /// is, so that a start that failed can be tried again.
    pub open spec fn started(self, acceptor_open: bool) -> ServerView<C, H> {
        if self.start_result(acceptor_open) is Ok {
            self.at(ListenerStage::Receiving)
        } else {
            self
        }
    }

    /// The server after it was given the handle of its thread: a started
    /// listener that keeps no handle keeps this one; any other server stays
    /// as it is.
    pub open spec fn attached(self, handle: H) -> ServerView<C, H> {
        if self.takes_thread() {
            ServerView { thread: Some(handle), ..self }
        } else {
            self
        }
    }

    /// Whether the server takes the handle of a thread: its listener was
    /// started, and it keeps no handle.
    pub open spec fn takes_thread(self) -> bool {
        self.stage != ListenerStage::Idle && self.thread is None
    }

    /// The server after a request to shut down: the request is recorded;
    /// a listener that was never started has no loop to end and is stopped
    /// at once.
    pub open spec fn shutdown_requested(self) -> ServerView<C, H> {
        ServerView {
            shutdown: true,
            stage: if self.stage == ListenerStage::Idle {
                ListenerStage::Stopped
            } else {
                self.stage
            },
            ..self
        }
    }

    /// The server after teardown: the request to shut down is recorded,
    /// and the handle of the thread has left the server.
    pub open spec fn torn_down(self) -> ServerView<C, H> {
        ServerView { thread: None, ..self.shutdown_requested() }
    }

    /// Between two turns of the loop: a listener that was asked to shut
    /// down ends, any other receives again.
    pub open spec fn next_turn(self) -> (ServerView<C, H>, ListenerStepView) {
        if self.shutdown {
            (
                self.at(ListenerStage::Stopped),
                ListenerStepView { action: ListenerActionView::Stop, discarded: None },
            )
        } else {
            (
                self.at(ListenerStage::Receiving),
                ListenerStepView { action: ListenerActionView::Receive, discarded: None },
            )
        }
    }

    /// After the receive: on to the accept, with the reason where a
    /// datagram was thrown away.
    pub open spec fn to_accept(self, discarded: Option<DecodeError>) -> (
        ServerView<C, H>,
        ListenerStepView,
    ) {
        (
            self.at(ListenerStage::Accepting),
            ListenerStepView { action: ListenerActionView::Accept, discarded },
        )
    }

    /// What a datagram leads to: a query is answered; any other message is
    /// passed over; bytes that are no message are thrown away.
    pub open spec fn on_datagram(self, bytes: Seq<u8>) -> (ServerView<C, H>, ListenerStepView) {
        match decoded(bytes) {
            Ok(m) => if m == query() {
                (
                    self.at(ListenerStage::Replying),
                    ListenerStepView {
                        action: ListenerActionView::Reply(self.answer()),
                        discarded: None,
                    },
                )
            } else {
                self.to_accept(None)
            },
            Err(e) => self.to_accept(Some(e)),
        }
    }

    /// The listener's answer to an event, and the server after it. An event
    /// that does not tell the outcome of the pending action changes
    /// nothing, and the pending action is named again.
    pub open spec fn step(self, event: ListenerEventView<C>) -> (
        ServerView<C, H>,
        ListenerStepView,
    ) {
        if !self.expects(event) {
            (self, ListenerStepView { action: self.pending(), discarded: None })
        } else {
            match event {
                ListenerEventView::Datagram(bytes) => self.on_datagram(bytes),
                ListenerEventView::NoDatagram => self.to_accept(None),
                ListenerEventView::ReceiveFailed => self.to_accept(None),
                ListenerEventView::ReplySent => self.to_accept(None),
                ListenerEventView::Accepted(stream) => ServerView {
                    connections: self.connections.push(stream),
                    ..self
                }.next_turn(),
                ListenerEventView::NoConnection => self.next_turn(),
            }
        }
    }

    /// The server after a run of events, the oldest first.
    pub open spec fn run(self, events: Seq<ListenerEventView<C>>) -> ServerView<C, H>
        decreases events.len(),
    {
        if events.len() == 0 {
            self
        } else {
            self.step(events[0]).0.run(events.drop_first())
        }
    }

    /// How many outcomes the listener still waits for before its turn is
    /// over, at most: a receive, a reply, an accept.
    pub open spec fn outcomes_left(self) -> nat {
        match self.stage {
            ListenerStage::Receiving => 3,
            ListenerStage::Replying => 2,
            ListenerStage::Accepting => 1,
            _ => 0,
        }
    }
}

/// The description of a server that was given none: the name `ServerTest`,
/// no address, no password.
pub open spec fn default_info() -> ServerInfoView {
    ServerInfoView { name: "ServerTest"@, address: None, password_required: false }
}

impl<C, H> Server<C, H> {
    /// A server that describes itself as `default_info` says. Its listener
    /// is idle until `start_receive_messages`.
    pub fn new() -> (server: Self)
        ensures
            server@ == (ServerView::<C, H> {
                info: default_info(),
                connections: Seq::empty(),
                stage: ListenerStage::Idle,
                shutdown: false,
                thread: None,
            }),
            server@.wf(),
    {
        Server::with_info(ServerInfo::new("ServerTest".to_owned(), None, false))
    }

    /// A server that describes itself as `info` says. Its listener is idle
    /// until `start_receive_messages`.
    pub fn with_info(info: ServerInfo) -> (server: Self)
        ensures
            server@ == (ServerView::<C, H> {
                info: info@,
                connections: Seq::empty(),
                stage: ListenerStage::Idle,
                shutdown: false,
                thread: None,
            }),
            server@.wf(),
    {
        proof {
            use_type_invariant(&info);
        }
        Server {
            info,
            connections: ConnectionRegistry::new(),
            stage: ListenerStage::Idle,
            coordinator: ShutdownCoordinator::new(),
        }
    }

    /// What the server says of itself.
    pub fn info(&self) -> (info: &ServerInfo)
        ensures
            info@ == self@.info,
    {
        &self.info
    }

    /// The connections accepted so far, oldest first.
    pub fn connections(&self) -> (registry: &ConnectionRegistry<C>)
        ensures
            registry@ == self@.connections,
    {
        &self.connections
    }

    /// What the listener is waiting for.
    pub fn stage(&self) -> (stage: ListenerStage)
        ensures
            stage == self@.stage,
    {
        match self.stage {
            ListenerStage::Idle => if self.coordinator.requested() {
                ListenerStage::Stopped
            } else {
                ListenerStage::Idle
            },
            stage => stage,
        }
    }

    /// Where the listener stands in its life.
    pub fn phase(&self) -> (phase: Phase)
        ensures
            phase == self@.phase(),
    {
        match self.stage() {
            ListenerStage::Idle => Phase::Idle,
            ListenerStage::Stopped => Phase::Stopped,
            _ => if self.coordinator.requested() {
                Phase::ShuttingDown
            } else {
                Phase::Listening
            },
        }
    }

    /// Whether the listener was asked to shut down.
    pub fn shutdown_requested(&self) -> (requested: bool)
        ensures
            requested == self@.shutdown,
    {
        self.coordinator.requested()
    }

    /// Whether the server keeps the handle of a thread.
    pub fn keeps_thread(&self) -> (kept: bool)
        ensures
            kept == self@.thread is Some,
    {
        self.coordinator.keeps_handle()
    }

    /// Starts the listener, given whether its acceptor could be opened.
    ///
    /// An idle listener whose acceptor is open is listening from now on,
    /// and the result is the first action of its loop, a receive. An idle
    /// listener whose acceptor could not be opened stays idle, and the
    /// result names the failed step: the caller may try again. A listener
    /// that was started or shut down before stays as it is, and the result
    /// says that it is not idle: no second loop is to run.
    pub fn start_receive_messages(&mut self, acceptor_open: bool) -> (first: Result<
        ListenerAction,
        StartError,
    >)
        ensures
            final(self)@ == old(self)@.started(acceptor_open),
            final(self)@.wf(),
            match old(self)@.start_result(acceptor_open) {
                Ok(action) => first matches Ok(a) && a@ == action,
                Err(e) => first matches Err(f) && f == e,
            },
            first is Ok ==> final(self)@.phase() == Phase::Listening,
            first is Err ==> final(self)@ == old(self)@,
    {
        proof {
            use_type_invariant(&self.info);
        }
        match self.stage() {
            ListenerStage::Idle => {
                if acceptor_open {
                    self.stage = ListenerStage::Receiving;
                    Ok(ListenerAction::Receive)
                } else {
                    Err(StartError::Setup(SetupStep::OpenAcceptor))
                }
            },
            _ => Err(StartError::NotIdle),
        }
    }

    /// Gives the server the handle of the thread that runs its loop. A
    /// server whose listener was started and that keeps no handle keeps
    /// this one, and the result is `None`. Any other server stays as it is
    /// and gives the handle back.
    pub fn attach_thread(&mut self, handle: H) -> (refused: Option<H>)
        ensures
            final(self)@ == old(self)@.attached(handle),
            old(self)@.takes_thread() ==> refused is None,
            !old(self)@.takes_thread() ==> refused == Some(handle),
    {
        match self.stage() {
            ListenerStage::Idle => Some(handle),
            _ => self.coordinator.attach(handle),
        }
    }

    /// Asks the listener to shut down. The loop ends when its turn is over;
    /// a listener that was never started is stopped at once. The handle of
    /// the thread stays in the server.
    pub fn request_shutdown(&mut self)
        ensures
            final(self)@ == old(self)@.shutdown_requested(),
            final(self)@.wf(),
    {
        proof {
            use_type_invariant(&self.info);
        }
        self.coordinator.request();
        match self.stage {
            ListenerStage::Idle => {
                self.stage = ListenerStage::Stopped;
            },
            _ => {},
        }
    }

    /// Tears the server down: asks the listener to shut down and gives the
    /// handle of its thread, which the caller then waits for. The handle
    /// leaves the server, so a second teardown gives none.
    pub fn teardown(&mut self) -> (handle: Option<H>)
        ensures
            final(self)@ == old(self)@.torn_down(),
            final(self)@.wf(),
            handle == old(self)@.thread,
    {
        proof {
            use_type_invariant(&self.info);
        }
        let handle = self.coordinator.teardown();
        match self.stage {
            ListenerStage::Idle => {
                self.stage = ListenerStage::Stopped;
            },
            _ => {},
        }
        handle
    }

    /// The datagram that answers a query.
    fn answer(&self) -> (datagram: Datagram)
        ensures
            datagram@ == self@.answer(),
    {
        Datagram { payload: reply_bytes(&self.info), destination: group_addr() }
    }

    /// Between two turns of the loop.
    fn next_turn(&mut self) -> (step: ListenerStep)
        requires
            old(self)@.stage == ListenerStage::Accepting,
        ensures
            (final(self)@, step@) == old(self)@.next_turn(),
    {
        if self.coordinator.requested() {
            self.stage = ListenerStage::Stopped;
            ListenerStep { action: ListenerAction::Stop, discarded: None }
        } else {
            self.stage = ListenerStage::Receiving;
            ListenerStep { action: ListenerAction::Receive, discarded: None }
        }
    }

    /// After the receive: on to the accept.
    fn to_accept(&mut self, discarded: Option<DecodeError>) -> (step: ListenerStep)
        requires
            old(self)@.stage == ListenerStage::Receiving || old(self)@.stage
                == ListenerStage::Replying,
        ensures
            (final(self)@, step@) == old(self)@.to_accept(discarded),
    {
        self.stage = ListenerStage::Accepting;
        ListenerStep { action: ListenerAction::Accept, discarded }
    }

    /// What a datagram leads to.
    fn on_datagram(&mut self, bytes: &[u8]) -> (step: ListenerStep)
        requires
            old(self)@.stage == ListenerStage::Receiving,
        ensures
            (final(self)@, step@) == old(self)@.on_datagram(bytes@),
    {
        match Message::decode(bytes) {
            Ok(Message::Connection(ConnectionMessage::ServerList)) => {
                let datagram = self.answer();
                self.stage = ListenerStage::Replying;
                ListenerStep { action: ListenerAction::Reply(datagram), discarded: None }
            },
            Ok(_) => self.to_accept(None),
            Err(e) => self.to_accept(Some(e)),
        }
    }

    /// The action whose outcome the listener is waiting for.
    pub fn pending(&self) -> (action: ListenerAction)
        ensures
            action@ == self@.pending(),
    {
        match self.stage {
            ListenerStage::Idle => ListenerAction::Stop,
            ListenerStage::Receiving => ListenerAction::Receive,
            ListenerStage::Replying => ListenerAction::Reply(self.answer()),
            ListenerStage::Accepting => ListenerAction::Accept,
            ListenerStage::Stopped => ListenerAction::Stop,
        }
    }

    /// Takes in what happened on the network and names the next action.
    pub fn step(&mut self, event: ListenerEvent<'_, C>) -> (step: ListenerStep)
        ensures
            (final(self)@, step@) == old(self)@.step(event@),
            final(self)@.wf(),
    {
        proof {
            use_type_invariant(&self.info);
        }
        match (self.stage, event) {
            (ListenerStage::Receiving, ListenerEvent::Datagram(bytes)) => self.on_datagram(bytes),
            (ListenerStage::Receiving, ListenerEvent::NoDatagram) => self.to_accept(None),
            (ListenerStage::Receiving, ListenerEvent::ReceiveFailed) => self.to_accept(None),
            (ListenerStage::Replying, ListenerEvent::ReplySent) => self.to_accept(None),
            (ListenerStage::Accepting, ListenerEvent::Accepted(stream)) => {
                self.connections.append(stream);
                self.next_turn()
            },
            (ListenerStage::Accepting, ListenerEvent::NoConnection) => self.next_turn(),
            _ => ListenerStep { action: self.pending(), discarded: None },
        }
    }
}

/// A start that fails leaves the listener idle and names the step, so that
/// the caller can try again; a start whose acceptor is open makes an idle
/// listener listen; and a listener is started once only.
pub proof fn lemma_start<C, H>(s: ServerView<C, H>, acceptor_open: bool)
    requires
        s.wf(),
    ensures
        s.started(acceptor_open).wf(),
        s.phase() == Phase::Idle && acceptor_open ==> s.started(acceptor_open).phase()
            == Phase::Listening && s.start_result(acceptor_open) == Ok::<_, StartError>(
            ListenerActionView::Receive,
        ),
        s.phase() == Phase::Idle && !acceptor_open ==> s.started(acceptor_open) == s
            && s.start_result(acceptor_open) == Err::<ListenerActionView, _>(
            StartError::Setup(SetupStep::OpenAcceptor),
        ),
        s.phase() != Phase::Idle ==> s.started(acceptor_open) == s && s.start_result(
            acceptor_open,
        ) == Err::<ListenerActionView, _>(StartError::NotIdle),
        s.started(acceptor_open).phase() == Phase::Listening ==> s.phase() == Phase::Listening
            || (s.phase() == Phase::Idle && acceptor_open),
        s.started(true).start_result(acceptor_open) is Err,
{
}

/// The handle of the thread leaves the server by teardown only, and with
/// the request to shut down: events, a start and a request leave it where
/// it is; teardown gives it and leaves a server that was asked to shut down
/// and keeps no handle, so that a second teardown gives none.
pub proof fn lemma_thread_leaves_with_request<C, H>(
    s: ServerView<C, H>,
    event: ListenerEventView<C>,
    acceptor_open: bool,
)
    ensures
        s.step(event).0.thread == s.thread,
        s.started(acceptor_open).thread == s.thread,
        s.shutdown_requested().thread == s.thread,
        s.torn_down().shutdown,
        s.torn_down().thread is None,
        s.torn_down().torn_down() == s.torn_down(),
        s.torn_down().stage != ListenerStage::Idle,
        forall|handle: H| s.stage == ListenerStage::Idle ==> #[trigger] s.attached(handle) == s,
{
}

/// No event changes what the server says of itself or whether it was asked
/// to shut down, and none makes a description that cannot be written.
pub proof fn lemma_step_keeps_settings<C, H>(s: ServerView<C, H>, event: ListenerEventView<C>)
    ensures
        s.step(event).0.info == s.info,
        s.step(event).0.shutdown == s.shutdown,
        s.wf() ==> s.step(event).0.wf(),
        s.wf() ==> s.shutdown_requested().wf(),
        s.wf() ==> s.torn_down().wf(),
{
}

/// The connections only grow, and by one at a time: an event leaves those
/// that are there where they are, and adds one at the end exactly when it
/// is the accepted connection that the listener was waiting for.
pub proof fn lemma_step_appends<C, H>(s: ServerView<C, H>, event: ListenerEventView<C>)
    ensures
        extends(s.step(event).0.connections, s.connections),
        s.stage == ListenerStage::Accepting && event is Accepted ==> s.step(event).0.connections
            == s.connections.push(event->Accepted_0),
        !(s.stage == ListenerStage::Accepting && event is Accepted) ==> s.step(event).0.connections
            == s.connections,
{
    let after = s.step(event).0.connections;
    assert(after.take(s.connections.len() as int) =~= s.connections);
}

/// A reply is begun for a query and for nothing else: the listener comes to
/// wait for a reply to be sent exactly when it was waiting for a datagram
/// and the datagram begins with the bytes of the query.
pub proof fn lemma_reply_only_to_query<C, H>(s: ServerView<C, H>, event: ListenerEventView<C>)
    requires
        s.stage != ListenerStage::Replying,
    ensures
        s.step(event).0.stage == ListenerStage::Replying <==> s.stage == ListenerStage::Receiving
            && event is Datagram && decoded(event->Datagram_0) == Ok::<_, DecodeError>(query()),
        s.step(event).1.action is Reply <==> s.step(event).0.stage == ListenerStage::Replying,
{
}

/// What the listener sends is the server's description, as a reply, to the
/// group: whoever decodes the payload reads that description, and the
/// destination is the multicast group on the discovery port.
pub proof fn lemma_reply_describes_server<C, H>(s: ServerView<C, H>, event: ListenerEventView<C>)
    requires
        s.wf(),
        s.step(event).1.action is Reply,
    ensures
        s.step(event).1.action->Reply_0 == s.answer(),
        decoded(s.answer().payload) == Ok::<_, DecodeError>(reply(s.info)),
        s.answer().destination == spec_group_addr(),
{
    lemma_message_round_trip(reply(s.info), Seq::empty());
    assert(message_bytes(reply(s.info)) + Seq::<u8>::empty() =~= message_bytes(reply(s.info)));
}

/// A listener that has stopped stays stopped: whatever the event, nothing
/// changes and the answer is to leave the loop; and it is not started
/// again.
pub proof fn lemma_stopped_is_final<C, H>(
    s: ServerView<C, H>,
    event: ListenerEventView<C>,
    acceptor_open: bool,
)
    requires
        s.stage == ListenerStage::Stopped,
    ensures
        s.step(event).0 == s,
        s.step(event).1.action is Stop,
        s.started(acceptor_open) == s,
        s.shutdown_requested().stage == ListenerStage::Stopped,
{
}

/// A listener that was not asked to shut down keeps listening: no event
/// ends its loop.
pub proof fn lemma_listening_goes_on<C, H>(s: ServerView<C, H>, event: ListenerEventView<C>)
    requires
        s.phase() == Phase::Listening,
    ensures
        s.step(event).0.phase() == Phase::Listening,
        !(s.step(event).1.action is Stop),
{
}

/// How far a listener is in its life.
pub open spec fn rank(phase: Phase) -> nat {
    match phase {
        Phase::Idle => 0,
        Phase::Listening => 1,
        Phase::ShuttingDown => 2,
        Phase::Stopped => 3,
    }
}

/// The life of a listener runs one way: idle, listening, shutting down,
/// stopped. Nothing takes it back. A request to shut down takes a
/// listening one to shutting down and an idle one straight to stopped;
/// events leave an idle listener idle.
pub proof fn lemma_phases_in_order<C, H>(
    s: ServerView<C, H>,
    event: ListenerEventView<C>,
    acceptor_open: bool,
)
    requires
        s.wf(),
    ensures
        rank(s.phase()) <= rank(s.step(event).0.phase()),
        rank(s.phase()) <= rank(s.started(acceptor_open).phase()),
        rank(s.phase()) <= rank(s.shutdown_requested().phase()),
        s.phase() == Phase::Idle ==> s.shutdown_requested().phase() == Phase::Stopped,
        s.phase() == Phase::Idle ==> s.step(event).0 == s,
        s.phase() == Phase::Listening ==> s.shutdown_requested().phase() == Phase::ShuttingDown,
        s.shutdown_requested().shutdown_requested() == s.shutdown_requested(),
{
}

/// Whatever happens, in whatever order: the server stays one that the
/// program can hold, says the same of itself, has been asked to shut down
/// or has not, as before, and keeps the handle that it kept; the
/// connections that were there are where they were, at most one has been
/// added for each event; and the listener has not gone back in its life.
pub proof fn lemma_run_keeps_record<C, H>(
    s: ServerView<C, H>,
    events: Seq<ListenerEventView<C>>,
)
    requires
        s.wf(),
    ensures
        s.run(events).wf(),
        s.run(events).info == s.info,
        s.run(events).shutdown == s.shutdown,
        s.run(events).thread == s.thread,
        extends(s.run(events).connections, s.connections),
        s.run(events).connections.len() <= s.connections.len() + events.len(),
        rank(s.phase()) <= rank(s.run(events).phase()),
    decreases events.len(),
{
    if events.len() == 0 {
        assert(s.connections.take(s.connections.len() as int) =~= s.connections);
    } else {
        let next = s.step(events[0]).0;
        lemma_step_keeps_settings(s, events[0]);
        lemma_step_appends(s, events[0]);
        lemma_phases_in_order(s, events[0], true);
        lemma_run_keeps_record(next, events.drop_first());
        lemma_extends_twice(s.run(events).connections, next.connections, s.connections);
    }
}

/// The listener's answer names the action that it then waits for.
pub proof fn lemma_answer_is_pending<C, H>(s: ServerView<C, H>, event: ListenerEventView<C>)
    ensures
        s.step(event).1.action == s.step(event).0.pending(),
{
}

/// Once asked to shut down, the listener is nearer to its end with every
/// outcome that it is told: the number of outcomes left falls, and the
/// outcome of the accept ends the loop.
pub proof fn lemma_shutdown_progress<C, H>(s: ServerView<C, H>, event: ListenerEventView<C>)
    requires
        s.shutdown,
        s.expects(event),
    ensures
        s.step(event).0.outcomes_left() < s.outcomes_left(),
        s.stage == ListenerStage::Accepting ==> s.step(event).0.stage == ListenerStage::Stopped
            && s.step(event).1.action is Stop,
{
}

/// Teardown does not hang: a started listener that was asked to shut down
/// has stopped after at most three outcomes, whatever they are.
pub proof fn lemma_shutdown_within_three<C, H>(
    s: ServerView<C, H>,
    e1: ListenerEventView<C>,
    e2: ListenerEventView<C>,
    e3: ListenerEventView<C>,
)
    requires
        s.shutdown,
        s.stage != ListenerStage::Idle,
        s.stage != ListenerStage::Stopped ==> s.expects(e1),
        s.step(e1).0.stage != ListenerStage::Stopped ==> s.step(e1).0.expects(e2),
        s.step(e1).0.step(e2).0.stage != ListenerStage::Stopped ==> s.step(e1).0.step(e2).0.expects(
            e3,
        ),
    ensures
        s.step(e1).0.step(e2).0.step(e3).0.phase() == Phase::Stopped,
{
    let s1 = s.step(e1).0;
    let s2 = s1.step(e2).0;
    if s.stage != ListenerStage::Stopped {
        lemma_shutdown_progress(s, e1);
        if s1.stage != ListenerStage::Stopped {
            lemma_shutdown_progress(s1, e2);
            if s2.stage != ListenerStage::Stopped {
                lemma_shutdown_progress(s2, e3);
            }
        }
    }
}

} // verus!
