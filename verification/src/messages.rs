//! What nodes send each other, and the settings by which they find each other.

use crate::client::Client;
use crate::neighbours::ClientNeighbours;
use vstd::prelude::*;

verus! {

/// What a client asks of a node that it has connected to.
#[derive(Debug)]
pub enum FromClientMessage {
    /// Its name.
    ClientPublicKey,
    /// To take note of the neighbours of the client.
    ClientInfo(ClientNeighbours),
    /// The client nearest to it.
    NearestClient,
}

/// What a node announces to all.
#[derive(Debug)]
pub enum FromServerMessage {
    /// Who it is and where it answers.
    BroadcastClientInfo(Client),
}

/// How nodes find each other.
#[non_exhaustive]
pub struct DiscoverySettings;

impl DiscoverySettings {
    pub const ANNOUNCE_FREQUENCY: u64 = 1000;

    pub const MDNS_ADDRESS: &'static str = "224.0.0.251";

    pub const MDNS_PORT: u16 = 5353;

    pub const NAME_SUFFIX: &'static str = "p2p_chat.local";

    /// The first port on which a node tries to listen.
    pub const QUERY_PORT_START: u16 = 49500;

    /// The port before which a node stops trying.
    pub const QUERY_PORT_END: u16 = 50000;

    /// The address at which a node hears announcements.
    pub const BROADCAST_ADDRESS: &'static str = "0.0.0.0:7788";

    /// The multicast group to which a node announces itself.
    pub const MULTICAST_GROUP: [u8; 4] = [239, 255, 42, 98];

    /// The port to which a node announces itself.
    pub const MULTICAST_PORT: u16 = 7788;

    /// For how many seconds a node waits until the connection to a neighbour stands.
    pub const CONNECTION_WAIT: u64 = 5;
}

} // verus!
