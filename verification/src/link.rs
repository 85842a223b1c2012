//! The connection to one neighbour: what to do as it opens, closes or speaks.

use crate::client::Client;
use crate::neighbours::ManageClient;
use crate::network::Network;
use vstd::prelude::*;
use vstd::utf8::{encode_utf8, is_ascii_chars, is_ascii_chars_encode_utf8};

verus! {

/// What a connection is told.
#[derive(Clone, Copy, Debug, PartialEq, Eq, Structural)]
pub enum LinkEvent {
    /// A connection could be asked for.
    Opened,
    /// No connection could be asked for.
    Refused,
    /// The other end has answered.
    Connected,
    /// The other end has sent something.
    Message,
    /// The other end has gone.
    Disconnected,
    /// A greeting is due.
    Greet,
}

/// What is to be done next.
#[derive(Debug)]
pub enum LinkAction {
    /// Say that the connection stands, then wait for what comes next.
    ReportOpened,
    /// End.
    End,
    /// Nothing but to wait for what comes next.
    Listen,
    /// Hand on a request.
    Request(ManageClient),
    /// Send bytes to the other end.
    Send(Vec<u8>),
}

impl Network {
    /// Says what an event asks of the connection to `client`.
    pub fn tcp_connection(client: &Client, event: LinkEvent) -> (action: LinkAction)
        ensures
            event is Opened ==> action is ReportOpened,
            event is Refused ==> action is End,
            event is Connected || event is Message ==> action is Listen,
            event is Disconnected ==> action == LinkAction::Request(
                ManageClient::Disconnect(*client),
            ),
            event is Greet ==> (action matches LinkAction::Send(data) && data@ == encode_utf8(
                "Heartbeat!"@,
            )),
            is_answer(*client, event, action),
    {
        match event {
            LinkEvent::Opened => LinkAction::ReportOpened,
            LinkEvent::Refused => LinkAction::End,
            LinkEvent::Connected | LinkEvent::Message => LinkAction::Listen,
            LinkEvent::Disconnected => LinkAction::Request(
                ManageClient::Disconnect(client.clone()),
            ),
            LinkEvent::Greet => LinkAction::Send("Heartbeat!".as_bytes_vec()),
        }
    }
}

/// Whether `action` is what an event asks of the connection to `client`.
pub open spec fn is_answer(client: Client, event: LinkEvent, action: LinkAction) -> bool {
    match event {
        LinkEvent::Opened => action is ReportOpened,
        LinkEvent::Refused => action is End,
        LinkEvent::Connected | LinkEvent::Message => action is Listen,
        LinkEvent::Disconnected => action == LinkAction::Request(ManageClient::Disconnect(client)),
        LinkEvent::Greet => action matches LinkAction::Send(data) && data@ == encode_utf8(
            "Heartbeat!"@,
        ),
    }
}

/// That the other end has gone is reported for every client, with the very client, and on no other
/// event is anything requested.
pub proof fn law_gone_peer_is_reported(client: Client, event: LinkEvent, action: LinkAction)
    requires
        is_answer(client, event, action),
    ensures
        action is Request <==> event is Disconnected,
        action matches LinkAction::Request(request) ==> request == ManageClient::Disconnect(client),
{
}

/// A connection that could be asked for is reported and kept, one that could not is given up, and
/// nothing that the other end says changes that. Something is sent only when a greeting is due:
/// the ten bytes of the heartbeat.
pub proof fn law_connection_is_kept(client: Client, event: LinkEvent, action: LinkAction)
    requires
        is_answer(client, event, action),
    ensures
        action is ReportOpened <==> event is Opened,
        action is End <==> event is Refused,
        action is Listen <==> event is Connected || event is Message,
        action is Send <==> event is Greet,
        action matches LinkAction::Send(data) ==> data@ == seq![
            0x48u8,
            0x65,
            0x61,
            0x72,
            0x74,
            0x62,
            0x65,
            0x61,
            0x74,
            0x21,
        ],
{
    reveal_strlit("Heartbeat!");
    let text = "Heartbeat!"@;
    assert(is_ascii_chars(text));
    is_ascii_chars_encode_utf8(text);
    if let LinkAction::Send(data) = action {
        assert(data@ =~= seq![0x48u8, 0x65, 0x61, 0x72, 0x74, 0x62, 0x65, 0x61, 0x74, 0x21]);
    }
}

} // verus!
