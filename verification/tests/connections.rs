use p2p_chat::client::{Client, SocketAddr};
use p2p_chat::connections::{Connections, ManageAction, ManageEvent, Phase};
use p2p_chat::neighbours::{ClientNeighbours, ManageClient, Side};
use p2p_chat::network::Network;

fn client(name: &str) -> Client {
    Client {
        ip_socket: SocketAddr::V4 { octets: [127, 0, 0, 1], port: 49500 },
        hash_name: name.to_string(),
    }
}

fn step(connections: &mut Connections, event: ManageEvent) -> ManageAction {
    Network::manage_tcp_connections(connections, event)
}

fn connected(
    connections: &mut Connections,
    request: ManageClient,
    neighbours: ClientNeighbours,
) -> ClientNeighbours {
    step(connections, ManageEvent::Request(request));
    assert!(matches!(
        step(connections, ManageEvent::ConnectionOpened),
        ManageAction::LockNeighbours
    ));
    match step(connections, ManageEvent::NeighboursLocked(neighbours)) {
        ManageAction::StoreNeighbours { neighbours } => neighbours,
        other => panic!("{:?}", other),
    }
}

fn gone(
    connections: &mut Connections,
    name: &str,
    neighbours: ClientNeighbours,
) -> (ClientNeighbours, Option<Side>, Option<Side>) {
    let request = ManageClient::Disconnect(client(name));
    assert!(matches!(
        step(connections, ManageEvent::Request(request)),
        ManageAction::LockNeighbours
    ));
    match step(connections, ManageEvent::NeighboursLocked(neighbours)) {
        ManageAction::ReleaseNeighbours { neighbours, abort, missing } => {
            (neighbours, abort, missing)
        }
        other => panic!("{:?}", other),
    }
}

#[test]
fn connected_client_becomes_the_neighbour() {
    let mut connections = Connections::new();
    let held = connected(
        &mut connections,
        ManageClient::ConnectPrev(client("1")),
        ClientNeighbours::new(),
    );
    assert_eq!(held.prev_client.as_ref().unwrap().hash_name, "1");
    assert!(held.next_client.is_none());
    let held = connected(&mut connections, ManageClient::ConnectNext(client("9")), held);
    assert_eq!(held.prev_client.unwrap().hash_name, "1");
    assert_eq!(held.next_client.unwrap().hash_name, "9");
    assert!(connections.prev_task && connections.next_task);
    assert!(matches!(connections.phase, Phase::Waiting));
}

#[test]
fn new_connection_aborts_the_old_task_on_its_side() {
    let mut connections = Connections::new();
    for (request, expected) in [
        (ManageClient::ConnectPrev(client("1")), false),
        (ManageClient::ConnectNext(client("9")), false),
        (ManageClient::ConnectPrev(client("2")), true),
        (ManageClient::ConnectNext(client("8")), true),
    ] {
        match step(&mut connections, ManageEvent::Request(request)) {
            ManageAction::OpenConnection { abort_previous, .. } => {
                assert_eq!(abort_previous, expected)
            }
            other => panic!("{:?}", other),
        }
        assert!(matches!(
            step(&mut connections, ManageEvent::ConnectionFailed),
            ManageAction::AwaitRequest
        ));
    }
}

#[test]
fn opening_names_side_and_client() {
    let mut connections = Connections::new();
    let request = ManageClient::ConnectNext(client("9"));
    match step(&mut connections, ManageEvent::Request(request)) {
        ManageAction::OpenConnection { side, client, wait_seconds, .. } => {
            assert_eq!(side, Side::Next);
            assert_eq!(client.hash_name, "9");
            assert_eq!(wait_seconds, 5);
        }
        other => panic!("{:?}", other),
    }
}

#[test]
fn gone_neighbour_is_struck_out() {
    let mut connections = Connections::new();
    let held = connected(
        &mut connections,
        ManageClient::ConnectPrev(client("1")),
        ClientNeighbours::new(),
    );
    let (held, abort, missing) = gone(&mut connections, "0x01", held);
    assert!(held.prev_client.is_none());
    assert_eq!((abort, missing), (Some(Side::Prev), None));
    assert!(!connections.prev_task);
    let held = connected(&mut connections, ManageClient::ConnectNext(client("9")), held);
    let (held, abort, missing) = gone(&mut connections, "9", held);
    assert!(held.next_client.is_none());
    assert_eq!((abort, missing), (Some(Side::Next), None));
    assert!(!connections.next_task);
}

#[test]
fn neighbour_above_is_not_looked_at_while_there_is_one_below() {
    let mut connections = Connections::new();
    let held = ClientNeighbours { prev_client: Some(client("1")), next_client: Some(client("9")) };
    let (held, abort, missing) = gone(&mut connections, "9", held);
    assert_eq!(held.prev_client.unwrap().hash_name, "1");
    assert_eq!(held.next_client.unwrap().hash_name, "9");
    assert_eq!((abort, missing), (None, None));
}

#[test]
fn stranger_that_goes_changes_nothing() {
    let mut connections = Connections::new();
    let held = ClientNeighbours { prev_client: None, next_client: Some(client("9")) };
    let (held, abort, missing) = gone(&mut connections, "5", held);
    assert!(held.prev_client.is_none());
    assert_eq!(held.next_client.unwrap().hash_name, "9");
    assert_eq!((abort, missing), (None, None));
    assert!(matches!(connections.phase, Phase::Waiting));
}

#[test]
fn missing_task_is_reported() {
    let mut connections = Connections::new();
    let held = ClientNeighbours { prev_client: Some(client("1")), next_client: None };
    let (held, abort, missing) = gone(&mut connections, "1", held);
    assert!(held.prev_client.is_none());
    assert_eq!((abort, missing), (None, Some(Side::Prev)));
    let held = ClientNeighbours { prev_client: None, next_client: Some(client("9")) };
    let (_, abort, missing) = gone(&mut connections, "9", held);
    assert_eq!((abort, missing), (None, Some(Side::Next)));
}

#[test]
fn run_of_requests() {
    let mut connections = Connections::new();
    let mut held = ClientNeighbours::new();
    let mut searches = 0;
    for (request, opens) in [
        (ManageClient::ConnectPrev(client("1")), true),
        (ManageClient::Disconnect(client("5")), true),
        (ManageClient::ConnectNext(client("9")), false),
        (ManageClient::ConnectNext(client("8")), true),
        (ManageClient::Disconnect(client("1")), true),
        (ManageClient::Disconnect(client("1")), true),
    ] {
        let mut action = step(&mut connections, ManageEvent::Request(request));
        if let ManageAction::OpenConnection { .. } = action {
            let outcome = if opens {
                ManageEvent::ConnectionOpened
            } else {
                ManageEvent::ConnectionFailed
            };
            action = step(&mut connections, outcome);
        }
        if let ManageAction::LockNeighbours = action {
            match step(&mut connections, ManageEvent::NeighboursLocked(held.clone())) {
                ManageAction::StoreNeighbours { neighbours } => held = neighbours,
                ManageAction::ReleaseNeighbours { neighbours, .. } => {
                    held = neighbours;
                    searches += 1;
                }
                other => panic!("{:?}", other),
            }
        }
        for prev in &held.prev_client {
            assert_eq!(prev.hash_name, "1");
        }
        for next in &held.next_client {
            assert_eq!(next.hash_name, "8");
        }
    }
    assert_eq!(searches, 3);
    assert!(held.prev_client.is_none());
    assert_eq!(held.next_client.unwrap().hash_name, "8");
}

#[test]
fn connections_end_without_requests() {
    let mut connections = Connections::new();
    assert!(matches!(
        step(&mut connections, ManageEvent::RequestsClosed),
        ManageAction::Stop
    ));
    assert!(matches!(connections.phase, Phase::Stopped));
}

#[test]
fn connections_end_when_neighbours_cannot_be_locked() {
    let mut connections = Connections::new();
    let request = ManageClient::ConnectPrev(client("1"));
    step(&mut connections, ManageEvent::Request(request));
    step(&mut connections, ManageEvent::ConnectionOpened);
    assert!(matches!(
        step(&mut connections, ManageEvent::NeighboursPoisoned),
        ManageAction::Stop
    ));
    let mut connections = Connections::new();
    let request = ManageClient::Disconnect(client("1"));
    step(&mut connections, ManageEvent::Request(request));
    assert!(matches!(
        step(&mut connections, ManageEvent::NeighboursPoisoned),
        ManageAction::Stop
    ));
}
