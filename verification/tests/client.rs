use p2p_chat::client::{Client, SocketAddr};
use p2p_chat::crypto::generate_random_token;
use p2p_chat::hex::NameError;
use p2p_chat::word::Word256;
use primitive_types::U256;
use rand::Rng;
use std::cmp::Ordering;

fn client(port: u16, name: &str) -> Client {
    Client {
        ip_socket: SocketAddr::V4 { octets: [127, 0, 0, 1], port },
        hash_name: name.to_string(),
    }
}

#[test]
fn test_eq() {
    let token = generate_random_token(&format!("{:?}", rand::thread_rng().gen::<f64>()));
    let hash = U256::from(token.as_bytes());
    let client = Client {
        ip_socket: SocketAddr::V4 { octets: [127, 0, 0, 1], port: 56800 },
        hash_name: hash.to_string(),
    };
    assert!(client == client);
}

#[test]
fn equality_goes_by_the_number() {
    assert!(client(1, "0xff") == client(2, "00FF"));
    assert!(client(1, "ff") != client(1, "fe"));
}

#[test]
fn names_that_are_no_numbers_equal_themselves_alone() {
    assert!(client(1, "nobody") == client(2, "nobody"));
    assert!(client(1, "nobody") != client(1, "Nobody"));
    assert!(client(1, "nobody") != client(1, "ff"));
}

#[test]
fn equality_is_symmetric_and_transitive() {
    let (a, b, c) = (client(1, "a"), client(2, "0A"), client(3, "0x0a"));
    assert!(a == b && b == a);
    assert!(b == c && a == c);
}

#[test]
fn order_goes_by_the_number() {
    assert!(client(1, "100") > client(1, "ff"));
    assert!(client(1, "9") < client(1, "A"));
    assert_eq!(client(1, "a").partial_cmp(&client(2, "A")), Some(Ordering::Equal));
    assert_eq!(client(1, "nobody").partial_cmp(&client(1, "ff")), None);
    assert_eq!(
        client(1, "nobody").partial_cmp(&client(2, "nobody")),
        Some(Ordering::Equal)
    );
}

#[test]
fn cmp_agrees_with_the_operators() {
    let (a, b, c) = (client(1, "1"), client(1, "2"), client(1, "ffffffffffffffffffff"));
    assert_eq!(a.cmp(&b), Ordering::Less);
    assert_eq!(c.cmp(&b), Ordering::Greater);
    assert_eq!(b.cmp(&b), Ordering::Equal);
    assert!(a < b && b < c && a < c);
    assert!(c > a);
}

#[test]
fn distance_of_clients() {
    let (a, b) = (client(1, "c"), client(2, "0xA"));
    assert_eq!(a.distance(&b), Ok(Word256 { words: [6, 0, 0, 0] }));
    assert_eq!(b.distance(&a), a.distance(&b));
    assert_eq!(a.distance(&client(9, "0c")), Ok(Word256 { words: [0, 0, 0, 0] }));
}

#[test]
fn distance_fails_on_the_first_bad_name() {
    let (good, odd, long) = (client(1, "c"), client(1, "xyz"), client(1, &"1".repeat(65)));
    assert_eq!(good.distance(&odd), Err(NameError::InvalidCharacter));
    assert_eq!(good.distance(&long), Err(NameError::InvalidLength));
    assert_eq!(odd.distance(&long), Err(NameError::InvalidCharacter));
    assert_eq!(long.distance(&odd), Err(NameError::InvalidLength));
}

#[test]
fn copies_keep_address_and_name() {
    let a = client(7, "C0ffee");
    let copy = a.clone();
    assert_eq!(copy.ip_socket, a.ip_socket);
    assert_eq!(copy.hash_name, a.hash_name);
}
