use p2p_chat::client::{Client, SocketAddr};
use p2p_chat::neighbours::{ClientNeighbours, ManageClient};
use p2p_chat::network::Network;

fn client(name: &str) -> Client {
    Client {
        ip_socket: SocketAddr::V4 { octets: [127, 0, 0, 1], port: 49500 },
        hash_name: name.to_string(),
    }
}

fn ask(current: &str, processed: &str, neighbours: &ClientNeighbours) -> Option<ManageClient> {
    Network::process_broadcast_client_info(&client(current), client(processed), neighbours)
}

#[test]
fn first_client_below_becomes_prev() {
    match ask("8", "3", &ClientNeighbours::new()) {
        Some(ManageClient::ConnectPrev(found)) => assert_eq!(found.hash_name, "3"),
        other => panic!("{:?}", other),
    }
}

#[test]
fn first_client_above_or_level_becomes_next() {
    for name in ["9", "8", "0x8"] {
        match ask("8", name, &ClientNeighbours::new()) {
            Some(ManageClient::ConnectNext(found)) => assert_eq!(found.hash_name, name),
            other => panic!("{:?}", other),
        }
    }
}

#[test]
fn only_a_nearer_client_replaces_prev() {
    let held = ClientNeighbours { prev_client: Some(client("4")), next_client: None };
    // 8 ^ 4 = 12, 8 ^ 3 = 11, 8 ^ 7 = 15
    assert!(matches!(ask("8", "3", &held), Some(ManageClient::ConnectPrev(_))));
    assert!(ask("8", "7", &held).is_none());
    assert!(ask("8", "4", &held).is_none());
    assert!(ask("8", "0x04", &held).is_none());
    assert!(matches!(ask("8", "ff", &held), Some(ManageClient::ConnectNext(_))));
}

#[test]
fn only_a_nearer_client_replaces_next() {
    let held = ClientNeighbours { prev_client: None, next_client: Some(client("c")) };
    // 8 ^ c = 4, 8 ^ 9 = 1, 8 ^ d = 5
    assert!(matches!(ask("8", "9", &held), Some(ManageClient::ConnectNext(_))));
    assert!(ask("8", "d", &held).is_none());
    assert!(matches!(ask("8", "7", &held), Some(ManageClient::ConnectPrev(_))));
}

#[test]
fn a_neighbour_on_the_other_side_needs_no_number() {
    let held = ClientNeighbours { prev_client: None, next_client: Some(client("nobody")) };
    assert!(matches!(ask("8", "1", &held), Some(ManageClient::ConnectPrev(_))));
}

#[test]
fn announcements_lead_to_the_nearest_neighbours() {
    let mut held = ClientNeighbours::new();
    for name in ["1", "f", "6", "2", "a", "5", "c"] {
        match ask("8", name, &held) {
            Some(ManageClient::ConnectPrev(found)) => held.prev_client = Some(found),
            Some(ManageClient::ConnectNext(found)) => held.next_client = Some(found),
            _ => (),
        }
    }
    // below: 9, 14, 10, 13; above: 7, 2, 4
    assert_eq!(held.prev_client.unwrap().hash_name, "1");
    assert_eq!(held.next_client.unwrap().hash_name, "a");
}

#[test]
fn copies_keep_both_neighbours() {
    let held = ClientNeighbours { prev_client: Some(client("4")), next_client: Some(client("c")) };
    let copy = held.clone();
    assert_eq!(copy.prev_client.unwrap().hash_name, "4");
    assert_eq!(copy.next_client.unwrap().hash_name, "c");
    assert!(ClientNeighbours::new().clone().prev_client.is_none());
}
