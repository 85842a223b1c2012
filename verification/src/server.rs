//! The server of a node: where it listens, and what it answers.

use crate::client::{Client, SocketAddr};
use crate::decimal::{decimal_text, push_decimal};
use crate::messages::{DiscoverySettings, FromClientMessage};
use crate::network::{bound_to, Network, NetworkView};
use std::collections::HashMap;
use vstd::bytes::{
    lemma_auto_spec_u64_to_from_le_bytes, spec_u64_from_le_bytes, spec_u64_to_le_bytes,
};
use vstd::pervasive::unreached;
use vstd::prelude::*;
use vstd::utf8::{decode_utf8, encode_utf8, encode_utf8_decode_utf8};

verus! {

broadcast use vstd::std_specs::hash::group_hash_axioms;

/// What the server is at.
#[derive(Clone, Copy, Debug, PartialEq, Eq, Structural)]
pub enum ServerPhase {
    /// It has not begun.
    Idle,
    /// It tries to listen on a port.
    Binding { port: u16 },
    /// It listens.
    Serving,
    /// It has given up.
    Stopped,
}

/// The server of a node.
pub struct Server {
    /// What it is at.
    pub phase: ServerPhase,
    /// The endpoints that are connected to it.
    pub clients: HashMap<u64, u64>,
}

/// What the server is told. Endpoints go by a number.
#[derive(Debug)]
pub enum ServerEvent {
    /// It is to begin.
    Started,
    /// It listens, at this address.
    Bound(SocketAddr),
    /// It cannot listen on the port.
    ListenFailed,
    /// A connection that was asked for stands.
    Connected,
    /// An endpoint has connected.
    Accepted(u64),
    /// An endpoint has sent a message.
    Message { endpoint: u64, message: FromClientMessage },
    /// An endpoint has gone.
    Disconnected(u64),
}

/// What is to be done next.
#[derive(Debug)]
pub enum ServerAction {
    /// Try to listen at this address.
    Listen(String),
    /// Announce this client, look after its neighbours, and serve.
    Serve(Client),
    /// Report that no port is free, and end.
    GiveUp,
    /// Nothing.
    Nothing,
    /// Report that an endpoint has connected, and how many are connected now.
    ReportAccepted { total: usize },
    /// Send bytes to an endpoint.
    Reply { endpoint: u64, data: Vec<u8> },
    /// Report that an endpoint has gone.
    ReportDisconnected,
}

/// The address at which the server tries to listen on a port.
pub open spec fn query_address(port: u16) -> Seq<char> {
    "127.0.0.1:"@ + decimal_text(port as nat)
}

/// The port to try after one on which the server cannot listen.
pub open spec fn next_port(port: u16) -> Option<u16> {
    if port + 1 < DiscoverySettings::QUERY_PORT_END {
        Some((port + 1) as u16)
    } else {
        None
    }
}

/// A text as it is sent: its length in bytes, as eight bytes with the least significant first,
/// then its bytes.
pub open spec fn sent_text(text: Seq<char>) -> Seq<u8> {
    spec_u64_to_le_bytes(encode_utf8(text).len() as u64) + encode_utf8(text)
}

/// Whether `client` is the client that a node bound to `address` is to others.
pub open spec fn is_client_of(client: Client, node: NetworkView, address: SocketAddr) -> bool {
    &&& client.ip_socket == address
    &&& client.hash_name@ == node.name
    &&& client.is_named()
    &&& client.number() == node.value
}

/// The error of `bincode`.
#[verifier::external_type_specification]
#[verifier::external_body]
pub struct ExErrorKind(bincode::ErrorKind);

/// Calls `bincode::serialize` on a text: it succeeds, and writes the length in bytes, as eight
/// bytes with the least significant first, and the bytes.
#[verifier::external_body]
fn serialize_text(text: &str) -> (data: Result<Vec<u8>, Box<bincode::ErrorKind>>)
    requires
        encode_utf8(text@).len() + 8 <= isize::MAX,
    ensures
        data is Ok,
        data->Ok_0@ == sent_text(text@),
{
    bincode::serialize(text)
}

impl Server {
    /// A server that has not begun.
    pub fn new() -> (server: Server)
        ensures
            server.phase is Idle,
            server.clients@ == Map::<u64, u64>::empty(),
    {
        Server { phase: ServerPhase::Idle, clients: HashMap::new() }
    }

    /// Whether `event` is one that the phase waits for. Only a connected endpoint can go.
    pub open spec fn awaits(self, event: ServerEvent) -> bool {
        match self.phase {
            ServerPhase::Idle => event is Started,
            ServerPhase::Binding { .. } => event is Bound || event is ListenFailed,
            ServerPhase::Serving => match event {
                ServerEvent::Connected | ServerEvent::Accepted(_) | ServerEvent::Message {
                    ..
                } => true,
                ServerEvent::Disconnected(endpoint) => self.clients@.contains_key(endpoint),
                _ => false,
            },
            ServerPhase::Stopped => false,
        }
    }
}

fn address_of_port(port: u16) -> (address: String)
    ensures
        address@ == query_address(port),
{
    let mut address = "127.0.0.1:".to_owned();
    push_decimal(&mut address, port);
    address
}

impl Network {
    /// Moves the server of the node on by one event and says what is to be done next.
    ///
    /// The server tries one port after the other until it listens, then answers: it counts the
    /// endpoints that are connected, and tells its name to one that asks for it.
    pub fn like_main(&mut self, server: &mut Server, event: ServerEvent) -> (action: ServerAction)
        requires
            old(server).awaits(event),
        ensures
            final(self)@ == (match event {
                ServerEvent::Bound(address) => bound_to(old(self)@, address),
                _ => old(self)@,
            }),
            final(server).phase == phase_after(old(self)@, old(server).phase, event),
            final(server).clients@ == clients_after(old(server).clients@, event),
            is_action(old(self)@, old(server).phase, final(server).clients@, event, action),
            final(self)@.name == old(self)@.name,
            final(self)@.value == old(self)@.value,
            event matches ServerEvent::Bound(address) ==> {
                &&& final(self)@.bound_socket == Some(address)
                &&& action matches ServerAction::Serve(client)
                &&& client.ip_socket == address
                &&& client.hash_name@ == old(self)@.name
            },
            event matches ServerEvent::Message { endpoint, message } ==> (
            message is ClientPublicKey ==> (action matches ServerAction::Reply {
                endpoint: to,
                data,
            } && to == endpoint && data@ == sent_text(old(self)@.name))),
    {
        match event {
            ServerEvent::Started => {
                let port: u16 = DiscoverySettings::QUERY_PORT_START;
                server.phase = ServerPhase::Binding { port };
                ServerAction::Listen(address_of_port(port))
            },
            ServerEvent::Bound(address) => {
                self.bind(address);
                server.phase = ServerPhase::Serving;
                self.serve()
            },
            ServerEvent::ListenFailed => {
                let port: u16 = match server.phase {
                    ServerPhase::Binding { port } => port,
                    _ => unreached(),
                };
                if port < DiscoverySettings::QUERY_PORT_END - 1 {
                    server.phase = ServerPhase::Binding { port: port + 1 };
                    ServerAction::Listen(address_of_port(port + 1))
                } else {
                    let action = self.serve();
                    server.phase = match action {
                        ServerAction::Serve(_) => ServerPhase::Serving,
                        _ => ServerPhase::Stopped,
                    };
                    action
                }
            },
            ServerEvent::Connected => ServerAction::Nothing,
            ServerEvent::Accepted(endpoint) => {
                server.clients.insert(endpoint, 1);
                ServerAction::ReportAccepted { total: server.clients.len() }
            },
            ServerEvent::Message { endpoint, message } => match message {
                FromClientMessage::ClientPublicKey => match serialize_text(self.name()) {
                    Ok(data) => ServerAction::Reply { endpoint, data },
                    Err(_) => ServerAction::Nothing,
                },
                _ => ServerAction::Nothing,
            },
            ServerEvent::Disconnected(endpoint) => {
                server.clients.remove(&endpoint);
                ServerAction::ReportDisconnected
            },
        }
    }

    fn serve(&self) -> (action: ServerAction)
        ensures
            is_serve_or_give_up(self@, action),
    {
        match self.get_client_info() {
            Some(client) => ServerAction::Serve(client),
            None => ServerAction::GiveUp,
        }
    }
}

/// Whether `action` is to serve as the client that the node is, if it is bound to an address, or
/// else to give up.
pub open spec fn is_serve_or_give_up(node: NetworkView, action: ServerAction) -> bool {
    match node.bound_socket {
        Some(address) => action matches ServerAction::Serve(client) && is_client_of(
            client,
            node,
            address,
        ),
        None => action is GiveUp,
    }
}

/// Whether `action` is to listen on a port.
pub open spec fn is_listen(port: u16, action: ServerAction) -> bool {
    action matches ServerAction::Listen(address) && address@ == query_address(port)
}

/// The phase of the server of `node` after an event.
pub open spec fn phase_after(
    node: NetworkView,
    phase: ServerPhase,
    event: ServerEvent,
) -> ServerPhase {
    match event {
        ServerEvent::Started => ServerPhase::Binding { port: DiscoverySettings::QUERY_PORT_START },
        ServerEvent::Bound(_) => ServerPhase::Serving,
        ServerEvent::ListenFailed => match next_port(phase->port) {
            Some(port) => ServerPhase::Binding { port },
            None => if node.bound_socket is Some {
                ServerPhase::Serving
            } else {
                ServerPhase::Stopped
            },
        },
        _ => phase,
    }
}

/// The connected endpoints after an event.
pub open spec fn clients_after(clients: Map<u64, u64>, event: ServerEvent) -> Map<u64, u64> {
    match event {
        ServerEvent::Accepted(endpoint) => clients.insert(endpoint, 1),
        ServerEvent::Disconnected(endpoint) => clients.remove(endpoint),
        _ => clients,
    }
}

/// Whether `action` is what an event asks of the server of `node`, where `clients` are the
/// endpoints that are connected then.
pub open spec fn is_action(
    node: NetworkView,
    phase: ServerPhase,
    clients: Map<u64, u64>,
    event: ServerEvent,
    action: ServerAction,
) -> bool {
    match event {
        ServerEvent::Started => is_listen(DiscoverySettings::QUERY_PORT_START, action),
        ServerEvent::Bound(address) => is_serve_or_give_up(bound_to(node, address), action),
        ServerEvent::ListenFailed => match next_port(phase->port) {
            Some(port) => is_listen(port, action),
            None => is_serve_or_give_up(node, action),
        },
        ServerEvent::Connected => action is Nothing,
        ServerEvent::Accepted(_) => action matches ServerAction::ReportAccepted { total } && total
            == clients.len(),
        ServerEvent::Message {
            endpoint,
            message: FromClientMessage::ClientPublicKey,
        } => action matches ServerAction::Reply { endpoint: to, data } && to == endpoint && data@
            == sent_text(node.name),
        ServerEvent::Message { .. } => action is Nothing,
        ServerEvent::Disconnected(_) => action is ReportDisconnected,
    }
}

/// The port that the server tries after it could not listen on as many ports as given, if it
/// tries another.
pub open spec fn port_after_failures(failures: nat) -> Option<u16>
    decreases failures,
{
    if failures == 0 {
        Some(DiscoverySettings::QUERY_PORT_START)
    } else {
        match port_after_failures((failures - 1) as nat) {
            Some(port) => next_port(port),
            None => None,
        }
    }
}

/// The server tries every port of its range once, in order, and then no other.
pub proof fn law_ports_are_tried_in_order(failures: nat)
    ensures
        port_after_failures(failures) == (if DiscoverySettings::QUERY_PORT_START + failures
            < DiscoverySettings::QUERY_PORT_END {
            Some((DiscoverySettings::QUERY_PORT_START + failures) as u16)
        } else {
            None
        }),
    decreases failures,
{
    if failures > 0 {
        law_ports_are_tried_in_order((failures - 1) as nat);
    }
}

/// An endpoint that connects and goes again leaves the others as they were.
pub proof fn law_accepted_then_disconnected(clients: Map<u64, u64>, endpoint: u64)
    requires
        !clients.contains_key(endpoint),
    ensures
        clients_after(
            clients_after(clients, ServerEvent::Accepted(endpoint)),
            ServerEvent::Disconnected(endpoint),
        ) == clients,
{
    assert(clients.insert(endpoint, 1).remove(endpoint) =~= clients);
}

/// Every endpoint that asks for the name of the node is told it, whether or not it is among the
/// connected ones and whatever the server is at: the name is sent to that endpoint and no other.
/// Any other message goes unanswered.
pub proof fn law_name_is_told_to_whoever_asks(
    node: NetworkView,
    phase: ServerPhase,
    clients: Map<u64, u64>,
    endpoint: u64,
    message: FromClientMessage,
    action: ServerAction,
)
    ensures
        is_action(
            node,
            phase,
            clients,
            ServerEvent::Message { endpoint, message },
            action,
        ) <==> {
            ||| message is ClientPublicKey && (action matches ServerAction::Reply {
                endpoint: to,
                data,
            } && to == endpoint && data@ == sent_text(node.name))
            ||| !(message is ClientPublicKey) && action is Nothing
        },
{
}

/// What is sent of a text gives it back: the first eight bytes are the number of its bytes, the
/// least significant first, and the rest are its bytes.
pub proof fn law_sent_text_is_framed(text: Seq<char>)
    requires
        encode_utf8(text).len() <= u64::MAX,
    ensures
        sent_text(text).len() == 8 + encode_utf8(text).len(),
        spec_u64_from_le_bytes(sent_text(text).take(8)) == encode_utf8(text).len(),
        decode_utf8(sent_text(text).skip(8)) == text,
{
    lemma_auto_spec_u64_to_from_le_bytes();
    assert(sent_text(text).take(8) =~= spec_u64_to_le_bytes(encode_utf8(text).len() as u64));
    assert(sent_text(text).skip(8) =~= encode_utf8(text));
    encode_utf8_decode_utf8(text);
}

/// A node that is bound to an address, whatever it is, goes by that very address towards others,
/// under its own name; and the server serves from then on.
pub proof fn law_bound_address_is_served(
    node: NetworkView,
    phase: ServerPhase,
    clients: Map<u64, u64>,
    address: SocketAddr,
    action: ServerAction,
)
    requires
        is_action(node, phase, clients, ServerEvent::Bound(address), action),
    ensures
        action matches ServerAction::Serve(client) && client.ip_socket == address
            && client.hash_name@ == node.name && client.is_named() && client.number()
            == node.value,
        phase_after(node, phase, ServerEvent::Bound(address)) is Serving,
{
}

/// The server begins with port 49500. Where it cannot listen on a port, it tries the next one, as
/// long as that is below 50000, and listens on none in between; after the last one it gives up,
/// unless the node was bound before: then it serves at that address.
pub proof fn law_next_port_is_tried(
    node: NetworkView,
    clients: Map<u64, u64>,
    port: u16,
    action: ServerAction,
)
    ensures
        is_action(node, ServerPhase::Idle, clients, ServerEvent::Started, action) <==> (
        action matches ServerAction::Listen(address) && address@ == "127.0.0.1:"@ + decimal_text(
            49500,
        )),
        phase_after(node, ServerPhase::Idle, ServerEvent::Started) == (ServerPhase::Binding {
            port: 49500,
        }),
        port < 49999 ==> {
            let phase = ServerPhase::Binding { port };
            &&& phase_after(node, phase, ServerEvent::ListenFailed) == ServerPhase::Binding {
                port: (port + 1) as u16,
            }
            &&& is_action(node, phase, clients, ServerEvent::ListenFailed, action) <==> (
            action matches ServerAction::Listen(address) && address@ == "127.0.0.1:"@
                + decimal_text((port + 1) as nat))
        },
        port >= 49999 ==> {
            let phase = ServerPhase::Binding { port };
            let after = phase_after(node, phase, ServerEvent::ListenFailed);
            let done = is_action(node, phase, clients, ServerEvent::ListenFailed, action);
            match node.bound_socket {
                None => after is Stopped && (done <==> action is GiveUp),
                Some(bound) => after is Serving && (done ==> (action matches ServerAction::Serve(
                    client,
                ) && client.ip_socket == bound && client.hash_name@ == node.name)),
            }
        },
{
}

/// An endpoint is connected from when it connects until it goes, and what one endpoint does leaves
/// all others as they were. No other event changes who is connected.
pub proof fn law_who_is_connected(
    clients: Map<u64, u64>,
    event: ServerEvent,
    endpoint: u64,
)
    ensures
        clients_after(clients, event).contains_key(endpoint) <==> {
            ||| event == ServerEvent::Accepted(endpoint)
            ||| clients.contains_key(endpoint) && event != ServerEvent::Disconnected(endpoint)
        },
        clients_after(clients, event).contains_key(endpoint) ==> clients_after(
            clients,
            event,
        )[endpoint] == (if event == ServerEvent::Accepted(endpoint) {
            1
        } else {
            clients[endpoint]
        }),
{
}

/// When an endpoint connects, as many are reported as are connected then: one more than before,
/// unless it was connected already. When one goes, that is reported, and there is one fewer.
pub proof fn law_connected_endpoints_are_counted(
    node: NetworkView,
    phase: ServerPhase,
    clients: Map<u64, u64>,
    endpoint: u64,
    action: ServerAction,
)
    requires
        clients.dom().finite(),
    ensures
        ({
            let after = clients_after(clients, ServerEvent::Accepted(endpoint));
            is_action(node, phase, after, ServerEvent::Accepted(endpoint), action) <==> (
            action matches ServerAction::ReportAccepted { total } && total == clients.len() + (
            if clients.contains_key(endpoint) {
                0int
            } else {
                1int
            }))
        }),
        ({
            let after = clients_after(clients, ServerEvent::Disconnected(endpoint));
            &&& is_action(node, phase, after, ServerEvent::Disconnected(endpoint), action)
                <==> action is ReportDisconnected
            &&& clients.contains_key(endpoint) ==> after.len() == clients.len() - 1
        }),
        is_action(node, phase, clients, ServerEvent::Connected, action) <==> action is Nothing,
{
}

/// Once it serves, the server serves on, whatever endpoints do.
pub proof fn law_server_serves_on(node: NetworkView, phase: ServerPhase, event: ServerEvent)
    requires
        phase is Serving,
        event is Connected || event is Accepted || event is Message || event is Disconnected,
    ensures
        phase_after(node, phase, event) is Serving,
{
}

/// Which events the server waits for: the start; the outcome of its attempt to listen; or, once it
/// serves, anything of any endpoint, but that only a connected one can go.
pub proof fn law_what_the_server_awaits(server: Server, event: ServerEvent)
    ensures
        server.awaits(event) <==> match event {
            ServerEvent::Started => server.phase is Idle,
            ServerEvent::Bound(_) | ServerEvent::ListenFailed => server.phase is Binding,
            ServerEvent::Connected
            | ServerEvent::Accepted(_)
            | ServerEvent::Message { .. } => server.phase is Serving,
            ServerEvent::Disconnected(endpoint) => server.phase is Serving
                && server.clients@.contains_key(endpoint),
        },
{
}

} // verus!
