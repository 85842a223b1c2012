//! A node of the network.

use crate::client::{name_distance, Client, SocketAddr};
use crate::crypto::{blake3_hash, generate_random_token};
use crate::hex::{
    hex_text, is_digit_of, law_hex_text_digits, law_hex_text_names_bytes, law_name_fits,
    name_number, NameError,
};
use crate::neighbours::ClientNeighbours;
use crate::word::{
    bytes_value, distance, fits, law_bytes_are_told_apart, word_result, Word256,
};
use std::cmp::Ordering;
use std::collections::BTreeSet;
use vstd::prelude::*;
use vstd::std_specs::cmp::PartialOrdSpec;
use vstd::utf8::{encode_utf8, is_ascii_chars, is_ascii_chars_encode_utf8};

verus! {

/// A node: its name, as text and as a number, where it answers, and what it knows of others.
pub struct Network {
    bound_socket: Option<SocketAddr>,
    name_string: String,
    name_value: Word256,
    neighbours: ClientNeighbours,
    discovery_queue: BTreeSet<Client>,
}

/// What a node is.
pub struct NetworkView {
    /// Where it answers.
    pub bound_socket: Option<SocketAddr>,
    /// Its name.
    pub name: Seq<char>,
    /// The number that its name writes.
    pub value: nat,
    /// The neighbours with which it starts.
    pub neighbours: ClientNeighbours,
    /// The clients that wait to be looked at.
    pub discovery_queue: Set<Client>,
}

impl View for Network {
    type V = NetworkView;

    closed spec fn view(&self) -> NetworkView {
        NetworkView {
            bound_socket: self.bound_socket,
            name: self.name_string@,
            value: self.name_value@,
            neighbours: self.neighbours,
            discovery_queue: self.discovery_queue@,
        }
    }
}

/// The node that a token makes: named by the token, and as yet alone.
pub open spec fn node_of(token: Seq<u8>) -> NetworkView {
    NetworkView {
        bound_socket: None,
        name: hex_text(token),
        value: bytes_value(token),
        neighbours: ClientNeighbours::none(),
        discovery_queue: Set::empty(),
    }
}

/// A node once it answers at an address.
pub open spec fn bound_to(node: NetworkView, address: SocketAddr) -> NetworkView {
    NetworkView { bound_socket: Some(address), ..node }
}

/// The distance from a node to a client.
pub open spec fn node_distance(value: nat, to: Client) -> Result<nat, NameError> {
    match name_number(to.hash_name@) {
        Ok(number) => Ok(distance(value, number)),
        Err(error) => Err(error),
    }
}

/// Whether a node stands above a client.
pub open spec fn node_greater(value: nat, than: Client) -> Result<bool, NameError> {
    match name_number(than.hash_name@) {
        Ok(number) => Ok(value > number),
        Err(error) => Err(error),
    }
}

impl Network {
    /// The name is 64 hexadecimal digits and writes the number.
    #[verifier::type_invariant]
    spec fn well_named(self) -> bool {
        &&& name_number(self.name_string@) == Ok::<nat, NameError>(self.name_value@)
        &&& self.name_string@.len() == 64
        &&& is_ascii_chars(self.name_string@)
    }

    /// A node that is named by the hash of a random text.
    pub fn new(random: &str) -> (network: Network)
        ensures
            network@ == node_of(blake3_hash(encode_utf8(random@))),
            network@.name == hex_text(blake3_hash(encode_utf8(random@))),
            network@.value == bytes_value(blake3_hash(encode_utf8(random@))),
            network@.bound_socket is None,
    {
        Network::with_token(&generate_random_token(random))
    }

    /// A node that is named by a token.
    pub fn with_token(token: &crate::crypto::Hash) -> (network: Network)
        ensures
            network@ == node_of(token@),
            network@.name == hex_text(token@),
            network@.value == bytes_value(token@),
            network@.bound_socket is None,
    {
        let bytes = token.as_bytes();
        proof {
            law_hex_text_names_bytes(bytes@);
        }
        Network {
            bound_socket: None,
            name_string: token.to_string(),
            name_value: Word256::from_be_bytes(bytes),
            neighbours: ClientNeighbours::new(),
            discovery_queue: BTreeSet::new(),
        }
    }

    /// The distance to a client.
    pub fn distance(&self, to: &Client) -> (number: Result<Word256, NameError>)
        ensures
            word_result(number) == node_distance(self@.value, *to),
    {
        match to.name_value() {
            Ok(number) => Ok(self.name_value.distance(&number)),
            Err(error) => Err(error),
        }
    }

    /// Whether the node stands above a client.
    pub fn greater(&self, than: &Client) -> (result: Result<bool, NameError>)
        ensures
            result == node_greater(self@.value, *than),
    {
        match than.name_value() {
            Ok(number) => match self.name_value.compare(&number) {
                Ordering::Greater => Ok(true),
                _ => Ok(false),
            },
            Err(error) => Err(error),
        }
    }

    /// The name of the node: 64 hexadecimal digits.
    pub fn name(&self) -> (name: &str)
        ensures
            name@ == self@.name,
            encode_utf8(name@).len() == 64,
    {
        proof {
            use_type_invariant(self);
            is_ascii_chars_encode_utf8(self.name_string@);
        }
        self.name_string.as_str()
    }

    /// The neighbours with which the node starts.
    pub fn neighbours(&self) -> (neighbours: &ClientNeighbours)
        ensures
            *neighbours == self@.neighbours,
    {
        &self.neighbours
    }

    /// The clients that wait to be looked at.
    pub fn discovery_queue(&self) -> (queue: &BTreeSet<Client>)
        ensures
            queue@ == self@.discovery_queue,
    {
        &self.discovery_queue
    }

    /// Takes note of the address at which the node answers.
    pub fn bind(&mut self, address: SocketAddr)
        ensures
            final(self)@ == bound_to(old(self)@, address),
            final(self)@.bound_socket == Some(address),
            final(self)@.name == old(self)@.name,
            final(self)@.value == old(self)@.value,
    {
        proof {
            use_type_invariant(&*self);
        }
        self.bound_socket = Some(address);
    }

    /// The client that the node is to others, once it is bound to an address.
    pub fn get_client_info(&self) -> (info: Option<Client>)
        ensures
            info is Some == self@.bound_socket is Some,
            info matches Some(client) ==> {
                &&& Some(client.ip_socket) == self@.bound_socket
                &&& client.hash_name@ == self@.name
                &&& client.is_named()
                &&& client.number() == self@.value
            },
    {
        proof {
            use_type_invariant(self);
        }
        match self.bound_socket {
            Some(ip_socket) => Some(Client { ip_socket, hash_name: self.name_string.clone() }),
            None => None,
        }
    }
}

/// A node is as far from a client as the client that it is to others.
pub proof fn law_node_distance_is_client_distance(own: Client, to: Client)
    requires
        own.is_named(),
    ensures
        node_distance(own.number(), to) == name_distance(own.hash_name@, to.hash_name@),
{
}

/// A node stands above a client exactly where the client that it is to others does.
pub proof fn law_node_greater_is_client_greater(own: Client, than: Client)
    requires
        own.is_named(),
        than.is_named(),
    ensures
        node_greater(own.number(), than) == Ok::<bool, NameError>(
            own.partial_cmp_spec(&than) == Some(Ordering::Greater),
        ),
{
}

/// The name of a node writes its number, whatever the token is.
pub proof fn law_node_name_writes_its_number(token: Seq<u8>)
    requires
        token.len() == 32,
    ensures
        name_number(node_of(token).name) == Ok::<nat, NameError>(node_of(token).value),
        fits(node_of(token).value),
{
    law_hex_text_names_bytes(token);
    law_name_fits(hex_text(token));
}

/// A token names its node: the name is the 64 lower-case hexadecimal digits of the token, two for
/// each byte, high half first, and the number is the one that the bytes write, the most
/// significant first. The node is bound nowhere and knows nobody.
pub proof fn law_node_is_named_by_its_token(token: Seq<u8>)
    requires
        token.len() == 32,
    ensures
        node_of(token).name == hex_text(token),
        node_of(token).name.len() == 64,
        forall|i: int|
            0 <= i < 32 ==> is_digit_of(node_of(token).name[2 * i], #[trigger] token[i] as int / 16)
                && is_digit_of(node_of(token).name[2 * i + 1], token[i] as int % 16),
        node_of(token).value == bytes_value(token),
        node_of(token).bound_socket is None,
        node_of(token).neighbours.prev_client is None,
        node_of(token).neighbours.next_client is None,
        node_of(token).discovery_queue == Set::<Client>::empty(),
{
    law_hex_text_digits(token);
}

/// Nodes of different tokens have different names and different numbers.
pub proof fn law_tokens_name_apart(token: Seq<u8>, other: Seq<u8>)
    requires
        token.len() == 32,
        other.len() == 32,
        token != other,
    ensures
        node_of(token).name != node_of(other).name,
        node_of(token).value != node_of(other).value,
{
    if bytes_value(token) == bytes_value(other) {
        law_bytes_are_told_apart(token, other);
    }
    law_hex_text_names_bytes(token);
    law_hex_text_names_bytes(other);
}

/// A node answers at the very address to which it is bound, whatever the address is and wherever
/// it was bound before; nothing else of it changes.
pub proof fn law_bound_address_is_kept(node: NetworkView, address: SocketAddr)
    ensures
        bound_to(node, address).bound_socket == Some(address),
        bound_to(node, address).name == node.name,
        bound_to(node, address).value == node.value,
        bound_to(node, address).neighbours == node.neighbours,
        bound_to(node, address).discovery_queue == node.discovery_queue,
{
}

/// The distance and the order of a node go by its number and that of the client, and fail exactly
/// where the name of the client is no number, with the reason.
pub proof fn law_node_goes_by_numbers(value: nat, client: Client)
    ensures
        name_number(client.hash_name@) matches Ok(number) ==> {
            &&& node_distance(value, client) == Ok::<nat, NameError>(distance(value, number))
            &&& node_greater(value, client) == Ok::<bool, NameError>(number < value)
        },
        name_number(client.hash_name@) matches Err(error) ==> {
            &&& node_distance(value, client) == Err::<nat, NameError>(error)
            &&& node_greater(value, client) == Err::<bool, NameError>(error)
        },
{
}

} // verus!
