use ace_engine::server::ClientMessage;
use ace_engine::server::Disconnect;
use ace_engine::server::Incoming;
use ace_engine::server::Message;
use ace_engine::server::Reaction;
use ace_engine::server::Server;
use ace_engine::server::WebSocketSession;
use ace_engine::server::CLIENT_TIMEOUT;
use ace_engine::server::HEARTBEAT_INTERVAL;

fn sorted(mut numbers: Vec<usize>) -> Vec<usize> {
    numbers.sort();
    numbers
}

#[test]
fn a_new_server_has_no_sessions() {
    let server = Server::new();
    assert!(server.broadcast_message(0).is_empty());
}

#[test]
fn sessions_are_listed_once() {
    let mut server = Server::new();
    server.register(7);
    server.register(3);
    server.register(9);
    server.register(3);
    assert_eq!(sorted(server.broadcast_message(0)), vec![3, 7, 9]);
}

#[test]
fn a_message_goes_to_all_but_its_sender() {
    let mut server = Server::new();
    server.register(1);
    server.register(2);
    server.register(3);
    let message = ClientMessage { id: 2, message: String::from("coords") };
    assert_eq!(sorted(server.handle_client_message(&message)), vec![1, 3]);
    assert_eq!(sorted(server.broadcast_message(1)), vec![2, 3]);
    assert_eq!(sorted(server.broadcast_message(3)), vec![1, 2]);
    assert_eq!(sorted(server.broadcast_message(4)), vec![1, 2, 3]);
}

#[test]
fn a_message_goes_to_many_sessions_each_once() {
    let mut server = Server::new();
    for id in 0..500 {
        server.register(id * 7919);
    }
    let expected: Vec<usize> = (0..500).filter(|id| *id != 250).map(|id| id * 7919).collect();
    assert_eq!(sorted(server.broadcast_message(250 * 7919)), expected);
}

#[test]
fn a_session_that_ends_is_listed_no_more() {
    let mut server = Server::new();
    server.register(1);
    server.register(2);
    server.register(3);
    server.handle_disconnect(Disconnect { id: 2 });
    assert_eq!(sorted(server.broadcast_message(0)), vec![1, 3]);
    server.handle_disconnect(Disconnect { id: 2 });
    server.handle_disconnect(Disconnect { id: 5 });
    assert_eq!(sorted(server.broadcast_message(0)), vec![1, 3]);
    server.handle_disconnect(Disconnect { id: 1 });
    server.handle_disconnect(Disconnect { id: 3 });
    assert!(server.broadcast_message(0).is_empty());
}

#[test]
fn a_connecting_session_is_listed_under_the_number_it_gets() {
    let mut server = Server::new();
    let first = server.handle_connect();
    let second = server.handle_connect();
    let listed = server.broadcast_message(first);
    assert!(!listed.contains(&first));
    if second == first {
        assert!(listed.is_empty());
    } else {
        assert_eq!(listed, vec![second]);
    }
}

#[test]
fn random_numbers_differ() {
    let mut server = Server::new();
    let mut numbers = Vec::new();
    for _ in 0..16 {
        numbers.push(server.handle_connect());
    }
    numbers.sort();
    numbers.dedup();
    // sixteen numbers of 64 bits all alike would not be random
    assert!(numbers.len() > 1);
}

#[test]
fn a_quiet_peer_is_given_up_after_the_timeout() {
    let session = WebSocketSession { heartbeat: 1_000, id: 4 };
    assert_eq!(session.start_heartbeating(1_000), Reaction::Ping);
    assert_eq!(session.start_heartbeating(1_000 + HEARTBEAT_INTERVAL), Reaction::Ping);
    assert_eq!(session.start_heartbeating(1_000 + CLIENT_TIMEOUT), Reaction::Ping);
    assert_eq!(session.start_heartbeating(1_001 + CLIENT_TIMEOUT), Reaction::Stop);
    assert_eq!(session.start_heartbeating(0), Reaction::Ping);
    assert_eq!(session.start_heartbeating(u64::MAX), Reaction::Stop);
}

#[test]
fn pings_and_pongs_show_that_the_peer_is_there() {
    let mut session = WebSocketSession { heartbeat: 0, id: 4 };
    assert_eq!(session.handle(Incoming::Ping(vec![1, 2]), 50), Reaction::Pong(vec![1, 2]));
    assert_eq!(session.heartbeat, 50);
    assert_eq!(session.handle(Incoming::Pong, 80), Reaction::Nothing);
    assert_eq!(session.heartbeat, 80);
    assert_eq!(session.handle(Incoming::Other, 90), Reaction::Nothing);
    assert_eq!(session.heartbeat, 80);
}

#[test]
fn a_text_is_handed_on_under_the_number_of_the_session() {
    let mut session = WebSocketSession { heartbeat: 0, id: 4 };
    assert_eq!(
        session.handle(Incoming::Text(String::from("hello")), 10),
        Reaction::Forward(ClientMessage { id: 4, message: String::from("hello") })
    );
    assert_eq!(session, WebSocketSession { heartbeat: 0, id: 4 });
}

#[test]
fn a_close_closes_and_a_failure_stops() {
    let mut session = WebSocketSession { heartbeat: 0, id: 4 };
    assert_eq!(session.handle(Incoming::Close, 10), Reaction::CloseAndStop);
    assert_eq!(session.handle(Incoming::Failed, 10), Reaction::Stop);
    assert_eq!(session, WebSocketSession { heartbeat: 0, id: 4 });
}

#[test]
fn messages_clone_to_equals() {
    let message = Message(String::from("text"));
    assert_eq!(message.clone(), message);
    let received = ClientMessage { id: 1, message: String::from("text") };
    assert_eq!(received.clone(), received);
}
