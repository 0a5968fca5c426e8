use local::connect::addrs::Endpoint;
use local::connect::message::{query_bytes, reply_bytes, Datagram, Message, ServerInfo};
use local::connect::server::{
    ListenerAction, ListenerEvent, ListenerStage, ListenerStep, Phase, Server, StartError,
    RECEIVE_BUFFER,
};
use local::connect::setup::SetupStep;
use local::connect::wire::DecodeError;

/// A server whose connections are numbers and whose thread is a word.
type TestServer = Server<u32, &'static str>;

fn plain(action: ListenerAction) -> ListenerStep {
    ListenerStep { action, discarded: None }
}

fn listening() -> TestServer {
    let mut server = Server::new();
    assert_eq!(server.start_receive_messages(true), Ok(ListenerAction::Receive));
    server
}

#[test]
fn new_server_is_idle_and_named_server_test() {
    let server: TestServer = Server::new();
    assert_eq!(server.phase(), Phase::Idle);
    assert_eq!(server.stage(), ListenerStage::Idle);
    assert!(!server.shutdown_requested());
    assert_eq!(server.info().name(), "ServerTest");
    assert_eq!(server.info().address(), None);
    assert!(!server.info().password_required());
    assert!(server.connections().is_empty());
    assert!(!server.keeps_thread());
    assert_eq!(server.pending(), ListenerAction::Stop);
    assert_eq!(RECEIVE_BUFFER, 1000);
}

#[test]
fn idle_server_ignores_events() {
    let mut server: TestServer = Server::new();
    assert_eq!(server.step(ListenerEvent::Datagram(&query_bytes())), plain(ListenerAction::Stop));
    assert_eq!(server.step(ListenerEvent::Accepted(5)), plain(ListenerAction::Stop));
    assert_eq!(server.phase(), Phase::Idle);
    assert!(server.connections().is_empty());
}

#[test]
fn start_with_an_open_acceptor_listens() {
    let mut server: TestServer = Server::new();
    assert_eq!(server.start_receive_messages(true), Ok(ListenerAction::Receive));
    assert_eq!(server.phase(), Phase::Listening);
    assert_eq!(server.stage(), ListenerStage::Receiving);
    assert_eq!(server.pending(), ListenerAction::Receive);
}

#[test]
fn start_without_an_acceptor_fails_and_can_be_tried_again() {
    let mut server: TestServer = Server::new();
    assert_eq!(
        server.start_receive_messages(false),
        Err(StartError::Setup(SetupStep::OpenAcceptor))
    );
    assert_eq!(server.phase(), Phase::Idle);
    assert_eq!(server.stage(), ListenerStage::Idle);
    assert_eq!(server.step(ListenerEvent::NoDatagram), plain(ListenerAction::Stop));
    assert_eq!(
        server.start_receive_messages(false),
        Err(StartError::Setup(SetupStep::OpenAcceptor))
    );
    assert_eq!(server.phase(), Phase::Idle);
    assert_eq!(server.start_receive_messages(true), Ok(ListenerAction::Receive));
    assert_eq!(server.phase(), Phase::Listening);
}

#[test]
fn a_listener_is_started_once() {
    let mut server = listening();
    assert_eq!(server.start_receive_messages(true), Err(StartError::NotIdle));
    assert_eq!(server.start_receive_messages(false), Err(StartError::NotIdle));
    assert_eq!(server.stage(), ListenerStage::Receiving);
    server.step(ListenerEvent::NoDatagram);
    assert_eq!(server.start_receive_messages(true), Err(StartError::NotIdle));
    assert_eq!(server.stage(), ListenerStage::Accepting);
}

#[test]
fn query_is_answered_with_the_description_to_the_group() {
    let mut server = listening();
    let step = server.step(ListenerEvent::Datagram(&query_bytes()));
    let mut payload = vec![0u8, 0, 0, 0, 1, 0, 0, 0, 10, 0, 0, 0, 0, 0, 0, 0];
    payload.extend_from_slice(b"ServerTest");
    payload.extend_from_slice(&[0, 0]);
    let expected = Datagram { payload, destination: Endpoint::V4([224, 0, 0, 123], 7678) };
    assert_eq!(step, plain(ListenerAction::Reply(expected)));
    assert_eq!(server.stage(), ListenerStage::Replying);
    assert_eq!(server.step(ListenerEvent::ReplySent), plain(ListenerAction::Accept));
    assert_eq!(server.step(ListenerEvent::NoConnection), plain(ListenerAction::Receive));
}

#[test]
fn reply_carries_the_configured_description() {
    let info = ServerInfo::new(String::from("Den"), Some(Endpoint::V4([10, 0, 0, 7], 4000)), true);
    let mut server: TestServer = Server::with_info(info.clone());
    assert!(server.start_receive_messages(true).is_ok());
    let step = server.step(ListenerEvent::Datagram(&[0u8; 8]));
    match step.action {
        ListenerAction::Reply(datagram) => {
            assert_eq!(datagram.payload, reply_bytes(&info));
            assert_eq!(Message::decode(&datagram.payload), Ok(Message::server_info(info)));
        }
        other => panic!("no reply: {:?}", other),
    }
}

#[test]
fn query_with_bytes_after_it_is_answered() {
    let mut server = listening();
    let mut bytes = query_bytes();
    bytes.extend_from_slice(&[1, 2, 3]);
    let step = server.step(ListenerEvent::Datagram(&bytes));
    assert!(matches!(step.action, ListenerAction::Reply(_)));
}

#[test]
fn undecodable_datagram_is_discarded_and_the_loop_goes_on() {
    let mut server = listening();
    let step = server.step(ListenerEvent::Datagram(&[1, 2, 3]));
    assert_eq!(
        step,
        ListenerStep { action: ListenerAction::Accept, discarded: Some(DecodeError::Truncated) }
    );
    assert_eq!(server.step(ListenerEvent::NoConnection), plain(ListenerAction::Receive));
    let step = server.step(ListenerEvent::Datagram(&[9, 0, 0, 0, 0, 0, 0, 0]));
    assert_eq!(
        step,
        ListenerStep {
            action: ListenerAction::Accept,
            discarded: Some(DecodeError::UnknownVariant)
        }
    );
    assert_eq!(server.phase(), Phase::Listening);
}

#[test]
fn reply_of_a_server_is_passed_over() {
    let mut server = listening();
    let reply = reply_bytes(&ServerInfo::new(String::from("ServerTest"), None, false));
    assert_eq!(server.step(ListenerEvent::Datagram(&reply)), plain(ListenerAction::Accept));
    assert_eq!(server.stage(), ListenerStage::Accepting);
}

#[test]
fn would_block_and_errors_lead_to_the_accept() {
    let mut server = listening();
    assert_eq!(server.step(ListenerEvent::NoDatagram), plain(ListenerAction::Accept));
    assert_eq!(server.step(ListenerEvent::NoConnection), plain(ListenerAction::Receive));
    assert_eq!(server.step(ListenerEvent::ReceiveFailed), plain(ListenerAction::Accept));
    assert_eq!(server.step(ListenerEvent::NoConnection), plain(ListenerAction::Receive));
    assert_eq!(server.phase(), Phase::Listening);
}

#[test]
fn accepted_connection_is_registered_exactly_once() {
    let mut server = listening();
    server.step(ListenerEvent::NoDatagram);
    assert_eq!(server.connections().len(), 0);
    assert_eq!(server.step(ListenerEvent::Accepted(41)), plain(ListenerAction::Receive));
    assert_eq!(server.connections().len(), 1);
    assert_eq!(server.connections().get(0), Some(&41));
    server.step(ListenerEvent::NoDatagram);
    server.step(ListenerEvent::NoConnection);
    assert_eq!(server.connections().len(), 1);
    server.step(ListenerEvent::NoDatagram);
    server.step(ListenerEvent::Accepted(42));
    assert_eq!(server.connections().len(), 2);
    assert_eq!(server.connections().get(0), Some(&41));
    assert_eq!(server.connections().get(1), Some(&42));
}

#[test]
fn listener_names_the_pending_action_on_an_unexpected_event() {
    let mut server = listening();
    assert_eq!(server.step(ListenerEvent::Accepted(7)), plain(ListenerAction::Receive));
    assert_eq!(server.step(ListenerEvent::ReplySent), plain(ListenerAction::Receive));
    assert!(server.connections().is_empty());
    assert_eq!(server.stage(), ListenerStage::Receiving);
    server.step(ListenerEvent::Datagram(&query_bytes()));
    let pending = server.pending();
    assert!(matches!(pending, ListenerAction::Reply(_)));
    assert_eq!(server.step(ListenerEvent::NoDatagram), plain(pending));
    assert_eq!(server.stage(), ListenerStage::Replying);
    server.step(ListenerEvent::ReplySent);
    assert_eq!(server.step(ListenerEvent::NoDatagram), plain(ListenerAction::Accept));
    assert_eq!(server.stage(), ListenerStage::Accepting);
}

#[test]
fn shutdown_is_noticed_between_turns() {
    let mut server = listening();
    server.request_shutdown();
    assert_eq!(server.phase(), Phase::ShuttingDown);
    assert!(server.shutdown_requested());
    // The turn under way is finished: receive, reply, accept.
    let step = server.step(ListenerEvent::Datagram(&query_bytes()));
    assert!(matches!(step.action, ListenerAction::Reply(_)));
    assert_eq!(server.step(ListenerEvent::ReplySent), plain(ListenerAction::Accept));
    assert_eq!(server.phase(), Phase::ShuttingDown);
    assert_eq!(server.step(ListenerEvent::Accepted(3)), plain(ListenerAction::Stop));
    assert_eq!(server.phase(), Phase::Stopped);
    assert_eq!(server.connections().len(), 1);
    // Stopped for good.
    assert_eq!(server.step(ListenerEvent::NoDatagram), plain(ListenerAction::Stop));
    assert_eq!(server.step(ListenerEvent::Accepted(4)), plain(ListenerAction::Stop));
    assert_eq!(server.start_receive_messages(true), Err(StartError::NotIdle));
    assert_eq!(server.phase(), Phase::Stopped);
    assert_eq!(server.connections().len(), 1);
}

#[test]
fn shutdown_right_after_the_start_ends_the_loop_after_one_turn() {
    let mut server: TestServer = Server::new();
    assert!(server.start_receive_messages(true).is_ok());
    server.request_shutdown();
    assert_eq!(server.phase(), Phase::ShuttingDown);
    assert_eq!(server.step(ListenerEvent::NoDatagram), plain(ListenerAction::Accept));
    assert_eq!(server.step(ListenerEvent::NoConnection), plain(ListenerAction::Stop));
    assert_eq!(server.phase(), Phase::Stopped);
}

#[test]
fn shutdown_of_an_idle_server_stops_it() {
    let mut server: TestServer = Server::new();
    server.request_shutdown();
    assert_eq!(server.phase(), Phase::Stopped);
    assert_eq!(server.stage(), ListenerStage::Stopped);
    assert!(server.shutdown_requested());
    assert_eq!(server.start_receive_messages(true), Err(StartError::NotIdle));
    assert_eq!(server.phase(), Phase::Stopped);
    server.request_shutdown();
    assert_eq!(server.phase(), Phase::Stopped);
    assert_eq!(server.step(ListenerEvent::NoDatagram), plain(ListenerAction::Stop));
}

#[test]
fn server_teardown_requests_shutdown_and_hands_the_thread_back() {
    let mut server = listening();
    assert_eq!(server.attach_thread("thread handle"), None);
    assert!(server.keeps_thread());
    server.step(ListenerEvent::NoDatagram);
    assert!(server.keeps_thread());
    assert_eq!(server.teardown(), Some("thread handle"));
    assert!(!server.keeps_thread());
    assert_eq!(server.phase(), Phase::ShuttingDown);
    assert_eq!(server.step(ListenerEvent::NoConnection), plain(ListenerAction::Stop));
    assert_eq!(server.phase(), Phase::Stopped);
}

#[test]
fn a_thread_is_handed_back_once() {
    let mut server = listening();
    assert_eq!(server.attach_thread("first"), None);
    // A second handle is not taken: the first stays.
    assert_eq!(server.attach_thread("second"), Some("second"));
    assert_eq!(server.teardown(), Some("first"));
    assert!(server.shutdown_requested());
    assert_eq!(server.teardown(), None);
    assert_eq!(server.teardown(), None);
    assert!(server.shutdown_requested());
}

#[test]
fn request_alone_keeps_the_thread_for_the_teardown() {
    let mut server = listening();
    assert_eq!(server.attach_thread("thread"), None);
    server.request_shutdown();
    assert!(server.keeps_thread());
    assert_eq!(server.phase(), Phase::ShuttingDown);
    assert_eq!(server.teardown(), Some("thread"));
}

#[test]
fn an_idle_server_takes_no_thread() {
    let mut server: TestServer = Server::new();
    assert_eq!(server.attach_thread("thread"), Some("thread"));
    assert!(!server.keeps_thread());
    assert_eq!(server.teardown(), None);
    assert_eq!(server.phase(), Phase::Stopped);
}

#[test]
fn shutdown_takes_at_most_three_outcomes() {
    for skip in 0..3 {
        let mut server = listening();
        let events = [
            ListenerEvent::Datagram(&[0u8; 8][..]),
            ListenerEvent::ReplySent,
            ListenerEvent::NoConnection,
        ];
        let mut fed = 0;
        for event in events {
            if fed == skip {
                server.request_shutdown();
            }
            server.step(event);
            fed += 1;
        }
        if server.phase() != Phase::Stopped {
            let mut more = 0;
            for event in [
                ListenerEvent::NoDatagram,
                ListenerEvent::NoConnection,
                ListenerEvent::NoDatagram,
            ] {
                if server.phase() == Phase::Stopped {
                    break;
                }
                server.step(event);
                more += 1;
            }
            assert!(more <= 3);
        }
        assert_eq!(server.phase(), Phase::Stopped);
    }
}
