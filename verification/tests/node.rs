use p2p_chat::announce::{BroadcastAction, BroadcastEvent};
use p2p_chat::client::{Client, SocketAddr};
use p2p_chat::hex::NameError;
use p2p_chat::link::{LinkAction, LinkEvent};
use p2p_chat::messages::{FromClientMessage, FromServerMessage};
use p2p_chat::neighbours::{ClientNeighbours, ManageClient};
use p2p_chat::network::Network;
use p2p_chat::server::{Server, ServerAction, ServerEvent, ServerPhase};
use p2p_chat::word::Word256;

const EMPTY_HASH: &str = "af1349b9f5f9a1a6a0404dea36dcc9499bcb25c9adc112b7cc9a93cae41f3262";

fn address(port: u16) -> SocketAddr {
    SocketAddr::V4 { octets: [127, 0, 0, 1], port }
}

fn client(name: &str) -> Client {
    Client { ip_socket: address(49500), hash_name: name.to_string() }
}

fn numbered(low: u8) -> Network {
    let mut bytes = [0u8; 32];
    bytes[31] = low;
    Network::with_token(&p2p_chat::crypto::Hash::from_bytes(bytes))
}

#[test]
fn node_is_named_by_its_token() {
    let node = Network::new("");
    assert_eq!(node.name(), EMPTY_HASH);
    assert!(node.get_client_info().is_none());
    assert!(node.neighbours().prev_client.is_none());
    assert!(node.neighbours().next_client.is_none());
    assert!(node.discovery_queue().is_empty());
}

#[test]
fn node_and_its_client_agree() {
    let mut node = Network::new("0.125");
    node.bind(address(49501));
    let own = node.get_client_info().unwrap();
    assert_eq!(own.ip_socket, address(49501));
    assert_eq!(own.hash_name, node.name());
    for name in ["0", "ff", EMPTY_HASH, "nobody"] {
        let other = client(name);
        assert_eq!(node.distance(&other), own.distance(&other));
    }
    for name in ["0", "ff", EMPTY_HASH] {
        assert_eq!(node.greater(&client(name)), Ok(own > client(name)));
    }
    assert_eq!(node.distance(&own), Ok(Word256 { words: [0; 4] }));
}

#[test]
fn distance_and_order_of_a_node() {
    let node = numbered(12);
    assert_eq!(node.distance(&client("a")), Ok(Word256 { words: [6, 0, 0, 0] }));
    assert_eq!(node.greater(&client("b")), Ok(true));
    assert_eq!(node.greater(&client("c")), Ok(false));
    assert_eq!(node.greater(&client("d")), Ok(false));
    assert_eq!(node.distance(&client("q")), Err(NameError::InvalidCharacter));
    assert_eq!(node.greater(&client(&"1".repeat(65))), Err(NameError::InvalidLength));
}

#[test]
fn node_announces_itself() {
    let own = client("c");
    for event in [BroadcastEvent::Started, BroadcastEvent::Triggered] {
        match Network::broadcast(&own, event) {
            BroadcastAction::Announce { to, message } => {
                let FromServerMessage::BroadcastClientInfo(info) = message;
                assert_eq!(to, SocketAddr::V4 { octets: [239, 255, 42, 98], port: 7788 });
                assert_eq!(info.hash_name, "c");
                assert_eq!(info.ip_socket, own.ip_socket);
            }
            other => panic!("{:?}", other),
        }
    }
}

#[test]
fn other_clients_are_handed_on() {
    let own = client("c");
    for name in ["d", "0c"] {
        let message = FromServerMessage::BroadcastClientInfo(client(name));
        match Network::broadcast(&own, BroadcastEvent::Datagram(Some(message))) {
            BroadcastAction::Forward(info) => assert_eq!(info.hash_name, name),
            other => panic!("{:?}", other),
        }
    }
}

#[test]
fn own_announcement_and_noise_are_passed_over() {
    let own = client("c");
    let message = FromServerMessage::BroadcastClientInfo(client("c"));
    for event in [
        BroadcastEvent::Datagram(Some(message)),
        BroadcastEvent::Datagram(None),
        BroadcastEvent::TriggerClosed,
    ] {
        assert!(matches!(Network::broadcast(&own, event), BroadcastAction::Listen));
    }
}

fn heard(name: &str, port: u16) -> BroadcastEvent {
    let info = Client { ip_socket: address(port), hash_name: name.to_string() };
    BroadcastEvent::Datagram(Some(FromServerMessage::BroadcastClientInfo(info)))
}

#[test]
fn row_of_clients_is_handed_on_in_order() {
    let events = vec![
        BroadcastEvent::Started,
        heard("d", 1),
        heard("c", 2),
        BroadcastEvent::Triggered,
        heard("d", 1),
        BroadcastEvent::Datagram(None),
        heard("a", 3),
        BroadcastEvent::TriggerClosed,
        heard("d", 4),
        heard("c", 5),
    ];
    let (_, handed_on) = Network::broadcast_all(&client("c"), events);
    let handed_on: Vec<_> =
        handed_on.into_iter().map(|info| (info.hash_name, info.ip_socket)).collect();
    let expected = [("d", 1), ("d", 1), ("a", 3), ("d", 4)];
    assert_eq!(handed_on, expected.map(|(name, port)| (name.to_string(), address(port))));
}

#[test]
fn every_announcement_of_a_run_reaches_another_node() {
    let own = client("c");
    let events = vec![
        BroadcastEvent::Started,
        heard("d", 1),
        BroadcastEvent::Triggered,
        BroadcastEvent::Datagram(None),
        BroadcastEvent::Triggered,
        BroadcastEvent::TriggerClosed,
        BroadcastEvent::TriggerClosed,
    ];
    let (sent, _) = Network::broadcast_all(&own, events);
    assert_eq!(sent.len(), 3);
    let mut received = vec![];
    for (to, message) in sent {
        assert_eq!(to, SocketAddr::V4 { octets: [239, 255, 42, 98], port: 7788 });
        received.push(BroadcastEvent::Datagram(Some(message)));
    }
    let (sent, handed_on) = Network::broadcast_all(&client("d"), received);
    assert!(sent.is_empty());
    assert_eq!(handed_on.len(), 3);
    for info in handed_on {
        assert_eq!(info.hash_name, "c");
        assert_eq!(info.ip_socket, own.ip_socket);
    }
}

#[test]
fn link_events() {
    let peer = client("d");
    assert!(matches!(
        Network::tcp_connection(&peer, LinkEvent::Opened),
        LinkAction::ReportOpened
    ));
    assert!(matches!(Network::tcp_connection(&peer, LinkEvent::Refused), LinkAction::End));
    assert!(matches!(Network::tcp_connection(&peer, LinkEvent::Connected), LinkAction::Listen));
    assert!(matches!(Network::tcp_connection(&peer, LinkEvent::Message), LinkAction::Listen));
}

#[test]
fn link_reports_that_the_peer_has_gone() {
    match Network::tcp_connection(&client("d"), LinkEvent::Disconnected) {
        LinkAction::Request(ManageClient::Disconnect(gone)) => assert_eq!(gone.hash_name, "d"),
        other => panic!("{:?}", other),
    }
}

#[test]
fn link_greets() {
    match Network::tcp_connection(&client("d"), LinkEvent::Greet) {
        LinkAction::Send(data) => assert_eq!(data, b"Heartbeat!"),
        other => panic!("{:?}", other),
    }
}

#[test]
fn server_tries_every_port_in_order() {
    let mut node = numbered(1);
    let mut server = Server::new();
    let mut action = node.like_main(&mut server, ServerEvent::Started);
    for port in 49500..50000 {
        match action {
            ServerAction::Listen(address) => assert_eq!(address, format!("127.0.0.1:{}", port)),
            other => panic!("{:?}", other),
        }
        action = node.like_main(&mut server, ServerEvent::ListenFailed);
    }
    assert!(matches!(action, ServerAction::GiveUp));
    assert_eq!(server.phase, ServerPhase::Stopped);
    assert!(node.get_client_info().is_none());
}

#[test]
fn server_serves_where_it_is_bound() {
    let mut node = numbered(1);
    let mut server = Server::new();
    node.like_main(&mut server, ServerEvent::Started);
    node.like_main(&mut server, ServerEvent::ListenFailed);
    match node.like_main(&mut server, ServerEvent::Bound(address(49501))) {
        ServerAction::Serve(own) => {
            assert_eq!(own.ip_socket, address(49501));
            assert_eq!(own.hash_name, node.name());
        }
        other => panic!("{:?}", other),
    }
    assert_eq!(server.phase, ServerPhase::Serving);
    assert_eq!(node.get_client_info().unwrap().ip_socket, address(49501));
}

#[test]
fn server_that_was_bound_before_serves_there() {
    let mut node = numbered(1);
    node.bind(address(40000));
    let mut server = Server { phase: ServerPhase::Binding { port: 49999 }, ..Server::new() };
    match node.like_main(&mut server, ServerEvent::ListenFailed) {
        ServerAction::Serve(own) => assert_eq!(own.ip_socket, address(40000)),
        other => panic!("{:?}", other),
    }
    assert_eq!(server.phase, ServerPhase::Serving);
}

fn serving() -> (Network, Server) {
    let mut node = Network::new("");
    let mut server = Server::new();
    node.like_main(&mut server, ServerEvent::Started);
    node.like_main(&mut server, ServerEvent::Bound(address(49500)));
    (node, server)
}

#[test]
fn server_counts_its_clients() {
    let (mut node, mut server) = serving();
    for (endpoint, expected) in [(5, 1), (6, 2), (5, 2)] {
        match node.like_main(&mut server, ServerEvent::Accepted(endpoint)) {
            ServerAction::ReportAccepted { total } => assert_eq!(total, expected),
            other => panic!("{:?}", other),
        }
    }
    assert!(matches!(
        node.like_main(&mut server, ServerEvent::Disconnected(5)),
        ServerAction::ReportDisconnected
    ));
    assert_eq!(server.clients.len(), 1);
    assert!(server.clients.contains_key(&6));
}

#[test]
fn server_tells_its_name() {
    let (mut node, mut server) = serving();
    let event = ServerEvent::Message { endpoint: 5, message: FromClientMessage::ClientPublicKey };
    match node.like_main(&mut server, event) {
        ServerAction::Reply { endpoint, data } => {
            assert_eq!(endpoint, 5);
            assert_eq!(data[..8], [64, 0, 0, 0, 0, 0, 0, 0]);
            assert_eq!(&data[8..], EMPTY_HASH.as_bytes());
            assert_eq!(bincode::deserialize::<String>(&data).unwrap(), EMPTY_HASH);
        }
        other => panic!("{:?}", other),
    }
}

#[test]
fn server_passes_over_other_messages() {
    let (mut node, mut server) = serving();
    for message in [
        FromClientMessage::NearestClient,
        FromClientMessage::ClientInfo(ClientNeighbours::new()),
    ] {
        let event = ServerEvent::Message { endpoint: 5, message };
        assert!(matches!(node.like_main(&mut server, event), ServerAction::Nothing));
    }
    assert!(matches!(
        node.like_main(&mut server, ServerEvent::Connected),
        ServerAction::Nothing
    ));
}
