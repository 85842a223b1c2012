//! Clients of the network, their order and the distance between them.

use crate::hex::{law_name_fits, name_number, NameError};
use crate::word::{
    distance, law_distance_symmetric, law_distance_unique, law_distance_zero, order, word_result,
    Word256,
};
use std::cmp::Ordering;
use vstd::pervasive::unreached;
use vstd::prelude::*;
use vstd::std_specs::cmp::{PartialEqSpec, PartialOrdSpec};

verus! {

/// The address of a socket.
#[derive(Clone, Copy, Debug, PartialEq, Eq)]
pub enum SocketAddr {
    V4 { octets: [u8; 4], port: u16 },
    V6 { segments: [u16; 8], port: u16, flowinfo: u32, scope_id: u32 },
}

/// A client: the address at which it answers, and its name, a 256-bit number in hexadecimal.
#[derive(Debug)]
pub struct Client {
    pub ip_socket: SocketAddr,
    pub hash_name: String,
}

/// Whether two names stand for the same client. Names that are numbers do if the numbers are
/// equal; any other name stands for itself alone.
pub open spec fn same_name(a: Seq<char>, b: Seq<char>) -> bool {
    match (name_number(a), name_number(b)) {
        (Ok(x), Ok(y)) => x == y,
        (Err(_), Err(_)) => a == b,
        _ => false,
    }
}

/// How two names compare: by their numbers. A name that is no number is comparable with itself
/// alone.
pub open spec fn name_order(a: Seq<char>, b: Seq<char>) -> Option<Ordering> {
    match (name_number(a), name_number(b)) {
        (Ok(x), Ok(y)) => Some(order(x, y)),
        _ => if a == b {
            Some(Ordering::Equal)
        } else {
            None
        },
    }
}

/// The distance between two names, or why the first of them that is no number is none.
pub open spec fn name_distance(a: Seq<char>, b: Seq<char>) -> Result<nat, NameError> {
    match (name_number(a), name_number(b)) {
        (Err(error), _) => Err(error),
        (Ok(_), Err(error)) => Err(error),
        (Ok(x), Ok(y)) => Ok(distance(x, y)),
    }
}

impl Client {
    /// Whether the name is a 256-bit number in hexadecimal.
    pub open spec fn is_named(self) -> bool {
        name_number(self.hash_name@) is Ok
    }

    /// The number that the name writes.
    pub open spec fn number(self) -> nat {
        name_number(self.hash_name@)->Ok_0
    }

    /// The number that the name writes, if it writes one.
    pub fn name_value(&self) -> (number: Result<Word256, NameError>)
        ensures
            word_result(number) == name_number(self.hash_name@),
    {
        Word256::from_hex(self.hash_name.as_str())
    }

    /// The distance to `other`: the exclusive or of the numbers that the names write.
    pub fn distance(&self, other: &Self) -> (number: Result<Word256, NameError>)
        ensures
            word_result(number) == name_distance(self.hash_name@, other.hash_name@),
    {
        match (self.name_value(), other.name_value()) {
            (Err(error), _) => Err(error),
            (Ok(_), Err(error)) => Err(error),
            (Ok(own), Ok(others)) => Ok(own.distance(&others)),
        }
    }

    /// How the number that the name writes compares with that of `other`.
    pub fn cmp(&self, other: &Self) -> (ordering: Ordering)
        requires
            self.is_named(),
            other.is_named(),
        ensures
            ordering == order(self.number(), other.number()),
    {
        match (self.name_value(), other.name_value()) {
            (Ok(own), Ok(others)) => own.compare(&others),
            _ => unreached(),
        }
    }
}

impl Clone for Client {
    fn clone(&self) -> (copy: Self)
        ensures
            copy == *self,
    {
        Client { ip_socket: self.ip_socket, hash_name: self.hash_name.clone() }
    }
}

impl PartialEq for Client {
    fn eq(&self, other: &Self) -> (same: bool) {
        match (self.name_value(), other.name_value()) {
            (Ok(own), Ok(others)) => match own.compare(&others) {
                Ordering::Equal => true,
                _ => false,
            },
            (Err(_), Err(_)) => self.hash_name == other.hash_name,
            _ => false,
        }
    }
}

impl vstd::std_specs::cmp::PartialEqSpecImpl for Client {
    open spec fn obeys_eq_spec() -> bool {
        true
    }

    open spec fn eq_spec(&self, other: &Self) -> bool {
        same_name(self.hash_name@, other.hash_name@)
    }
}

impl Eq for Client {

}

impl PartialOrd for Client {
    fn partial_cmp(&self, other: &Self) -> (ordering: Option<Ordering>) {
        match (self.name_value(), other.name_value()) {
            (Ok(own), Ok(others)) => Some(own.compare(&others)),
            _ => if self.hash_name == other.hash_name {
                Some(Ordering::Equal)
            } else {
                None
            },
        }
    }
}

impl vstd::std_specs::cmp::PartialOrdSpecImpl for Client {
    open spec fn obeys_partial_cmp_spec() -> bool {
        true
    }

    open spec fn partial_cmp_spec(&self, other: &Self) -> Option<Ordering> {
        name_order(self.hash_name@, other.hash_name@)
    }
}

/// Every client equals itself, whatever its name.
pub proof fn law_equality_reflexive(a: Client)
    ensures
        a.eq_spec(&a),
{
}

/// Equality holds in both directions.
pub proof fn law_equality_symmetric(a: Client, b: Client)
    ensures
        a.eq_spec(&b) == b.eq_spec(&a),
{
}

/// Clients that equal a third one equal each other.
pub proof fn law_equality_transitive(a: Client, b: Client, c: Client)
    requires
        a.eq_spec(&b),
        b.eq_spec(&c),
    ensures
        a.eq_spec(&c),
{
}

/// Two clients compare as equal exactly where they are equal.
pub proof fn law_order_agrees_with_equality(a: Client, b: Client)
    ensures
        a.partial_cmp_spec(&b) == Some(Ordering::Equal) <==> a.eq_spec(&b),
{
}

/// Clients whose names are numbers always compare, and `cmp` and the operators agree.
pub proof fn law_order_total(a: Client, b: Client)
    requires
        a.is_named(),
        b.is_named(),
    ensures
        a.partial_cmp_spec(&b) == Some(order(a.number(), b.number())),
{
}

/// One client is greater than another exactly where that one is less.
pub proof fn law_order_antisymmetric(a: Client, b: Client)
    ensures
        a.partial_cmp_spec(&b) == Some(Ordering::Greater) <==> b.partial_cmp_spec(&a) == Some(
            Ordering::Less,
        ),
{
}

/// What is less than a lesser client is less.
pub proof fn law_order_transitive(a: Client, b: Client, c: Client)
    requires
        a.partial_cmp_spec(&b) == Some(Ordering::Less),
        b.partial_cmp_spec(&c) == Some(Ordering::Less),
    ensures
        a.partial_cmp_spec(&c) == Some(Ordering::Less),
{
}

/// The distance between clients whose names are numbers is the same in both directions.
pub proof fn law_client_distance_symmetric(a: Client, b: Client)
    requires
        a.is_named(),
        b.is_named(),
    ensures
        name_distance(a.hash_name@, b.hash_name@) == name_distance(b.hash_name@, a.hash_name@),
{
    law_distance_symmetric(a.number(), b.number());
}

/// Clients are at distance zero exactly where they are equal.
pub proof fn law_client_distance_zero(a: Client, b: Client)
    requires
        a.is_named(),
        b.is_named(),
    ensures
        name_distance(a.hash_name@, b.hash_name@)->Ok_0 == 0 <==> a.eq_spec(&b),
{
    law_name_fits(a.hash_name@);
    law_name_fits(b.hash_name@);
    law_distance_zero(a.number(), b.number());
}

/// Clients at the same distance from a third one are equal.
pub proof fn law_client_distance_unique(a: Client, b: Client, c: Client)
    requires
        a.is_named(),
        b.is_named(),
        c.is_named(),
        name_distance(a.hash_name@, b.hash_name@) == name_distance(a.hash_name@, c.hash_name@),
    ensures
        b.eq_spec(&c),
{
    law_name_fits(b.hash_name@);
    law_name_fits(c.hash_name@);
    law_distance_unique(a.number(), b.number(), c.number());
}

/// Clients whose names are numbers are equal exactly where the numbers are, and compare as the
/// numbers do. A name that is no number equals the same name alone, and compares with no other.
pub proof fn law_clients_go_by_their_numbers(a: Client, b: Client)
    ensures
        match (name_number(a.hash_name@), name_number(b.hash_name@)) {
            (Ok(x), Ok(y)) => {
                &&& a.eq_spec(&b) <==> x == y
                &&& a.partial_cmp_spec(&b) == Some(Ordering::Less) <==> x < y
                &&& a.partial_cmp_spec(&b) == Some(Ordering::Equal) <==> x == y
                &&& a.partial_cmp_spec(&b) == Some(Ordering::Greater) <==> x > y
            },
            _ => {
                &&& a.eq_spec(&b) <==> a.hash_name@ == b.hash_name@
                &&& a.partial_cmp_spec(&b) == (if a.hash_name@ == b.hash_name@ {
                    Some(Ordering::Equal)
                } else {
                    None
                })
            },
        },
{
}

/// The number of a client is the one that its name writes, where it writes one.
pub proof fn law_number_is_of_the_name(client: Client)
    ensures
        client.is_named() <==> name_number(client.hash_name@) is Ok,
        name_number(client.hash_name@) matches Ok(number) ==> client.number() == number,
{
}

/// The distance between two clients is that of the numbers that their names write; without a
/// number it fails, for the reason of the first name that is none. Addresses play no part.
pub proof fn law_client_distance_is_of_the_numbers(a: Client, b: Client)
    ensures
        name_distance(a.hash_name@, b.hash_name@) == (match name_number(a.hash_name@) {
            Err(error) => Err::<nat, NameError>(error),
            Ok(x) => match name_number(b.hash_name@) {
                Err(error) => Err::<nat, NameError>(error),
                Ok(y) => Ok::<nat, NameError>(distance(x, y)),
            },
        }),
{
}

} // verus!
