//! Announcements: what to do as others announce themselves.

use crate::client::{Client, SocketAddr};
use crate::messages::{DiscoverySettings, FromServerMessage};
use crate::network::Network;
use vstd::prelude::*;

verus! {

/// What the announcer is told.
#[derive(Debug)]
pub enum BroadcastEvent {
    /// The socket is ready.
    Started,
    /// A datagram came, with the message that it holds, if it holds one.
    Datagram(Option<FromServerMessage>),
    /// Another announcement was asked for.
    Triggered,
    /// No announcement will be asked for any more.
    TriggerClosed,
}

/// What is to be done next.
#[derive(Debug)]
pub enum BroadcastAction {
    /// Send a message to an address that all hear.
    Announce { to: SocketAddr, message: FromServerMessage },
    /// Hand on a client that has announced itself.
    Forward(Client),
    /// Nothing but to wait for what comes next.
    Listen,
}

impl Network {
    /// Says what an event asks of the announcer of `client_info`: it announces itself at the start
    /// and whenever asked to, and hands on every client that announces another name.
    pub fn broadcast(client_info: &Client, event: BroadcastEvent) -> (action: BroadcastAction)
        ensures
            action == announced(*client_info, event),
    {
        match event {
            BroadcastEvent::Started | BroadcastEvent::Triggered => BroadcastAction::Announce {
                to: SocketAddr::V4 {
                    octets: DiscoverySettings::MULTICAST_GROUP,
                    port: DiscoverySettings::MULTICAST_PORT,
                },
                message: FromServerMessage::BroadcastClientInfo(client_info.clone()),
            },
            BroadcastEvent::Datagram(Some(FromServerMessage::BroadcastClientInfo(info))) => {
                if client_info.hash_name == info.hash_name {
                    BroadcastAction::Listen
                } else {
                    BroadcastAction::Forward(info)
                }
            },
            BroadcastEvent::Datagram(None) | BroadcastEvent::TriggerClosed => {
                BroadcastAction::Listen
            },
        }
    }

    /// Runs the announcer of `client_info` over a row of events: gives what is to be sent, and
    /// where to, and the clients that are to be handed on.
    pub fn broadcast_all(client_info: &Client, events: Vec<BroadcastEvent>) -> (outcome: (
        Vec<(SocketAddr, FromServerMessage)>,
        Vec<Client>,
    ))
        ensures
            outcome.0@ == announcements(*client_info, events@),
            outcome.1@ == forwarded(*client_info, events@),
            outcome.1@ == heard(events@).filter(others(*client_info)),
            is_run(events@) ==> outcome.0@ == Seq::new(
                1 + triggers(events@),
                |i: int| announcement(*client_info),
            ),
    {
        let mut sent: Vec<(SocketAddr, FromServerMessage)> = Vec::new();
        let mut handed_on: Vec<Client> = Vec::new();
        let ghost row = events@;
        for event in iter: events
            invariant
                iter.seq() == row,
                sent@ == announcements(*client_info, row.take(iter.index())),
                handed_on@ == forwarded(*client_info, row.take(iter.index())),
        {
            proof {
                assert(row.take(iter.index() + 1).drop_last() == row.take(iter.index()));
            }
            match Network::broadcast(client_info, event) {
                BroadcastAction::Announce { to, message } => sent.push((to, message)),
                BroadcastAction::Forward(client) => handed_on.push(client),
                BroadcastAction::Listen => (),
            }
        }
        proof {
            assert(row.take(row.len() as int) == row);
            law_other_clients_are_forwarded(*client_info, row);
            if is_run(row) {
                law_announcements_are_counted(*client_info, row);
            }
        }
        (sent, handed_on)
    }
}

/// The address to which nodes announce themselves.
pub open spec fn multicast_address() -> SocketAddr {
    SocketAddr::V4 {
        octets: DiscoverySettings::MULTICAST_GROUP,
        port: DiscoverySettings::MULTICAST_PORT,
    }
}

/// What an event asks of the announcer of `client_info`.
pub open spec fn announced(client_info: Client, event: BroadcastEvent) -> BroadcastAction {
    match event {
        BroadcastEvent::Started | BroadcastEvent::Triggered => BroadcastAction::Announce {
            to: multicast_address(),
            message: FromServerMessage::BroadcastClientInfo(client_info),
        },
        BroadcastEvent::Datagram(Some(FromServerMessage::BroadcastClientInfo(info)))
            if info.hash_name@ != client_info.hash_name@ => BroadcastAction::Forward(info),
        _ => BroadcastAction::Listen,
    }
}

/// What one node announces, every node of another name hands on unchanged, and a node of the same
/// name does not.
pub proof fn law_announcements_reach_others(announcer: Client, listener: Client)
    ensures
        ({
            let message = FromServerMessage::BroadcastClientInfo(announcer);
            let heard = announced(listener, BroadcastEvent::Datagram(Some(message)));
            let announcement = BroadcastAction::Announce { to: multicast_address(), message };
            &&& announced(announcer, BroadcastEvent::Started) == announcement
            &&& announced(announcer, BroadcastEvent::Triggered) == announcement
            &&& listener.hash_name@ == announcer.hash_name@ ==> heard == BroadcastAction::Listen
            &&& listener.hash_name@ != announcer.hash_name@ ==> heard
                == BroadcastAction::Forward(announcer)
        }),
{
}

/// What the announcer of `client_info` sends over a row of events, and where to, in order.
pub open spec fn announcements(client_info: Client, events: Seq<BroadcastEvent>) -> Seq<
    (SocketAddr, FromServerMessage),
> {
    events.filter_map(
        |event: BroadcastEvent|
            match announced(client_info, event) {
                BroadcastAction::Announce { to, message } => Some((to, message)),
                _ => None,
            },
    )
}

/// The clients that the announcer of `client_info` hands on over a row of events, in order.
pub open spec fn forwarded(client_info: Client, events: Seq<BroadcastEvent>) -> Seq<Client> {
    events.filter_map(
        |event: BroadcastEvent|
            match announced(client_info, event) {
                BroadcastAction::Forward(client) => Some(client),
                _ => None,
            },
    )
}

/// The clients that announce themselves in a row of events, in order.
pub open spec fn heard(events: Seq<BroadcastEvent>) -> Seq<Client> {
    events.filter_map(
        |event: BroadcastEvent|
            match event {
                BroadcastEvent::Datagram(Some(FromServerMessage::BroadcastClientInfo(info))) => Some(
                    info,
                ),
                _ => None,
            },
    )
}

/// How often another announcement is asked for in a row of events.
pub open spec fn triggers(events: Seq<BroadcastEvent>) -> nat {
    events.filter(|event: BroadcastEvent| event is Triggered).len()
}

/// Whether a row of events is one that an announcer is told: it starts once, at the beginning.
pub open spec fn is_run(events: Seq<BroadcastEvent>) -> bool {
    &&& events.len() > 0
    &&& events[0] is Started
    &&& forall|i: int| 0 < i < events.len() ==> !((#[trigger] events[i]) is Started)
}

/// What one announcement of `client_info` is, and where it goes.
pub open spec fn announcement(client_info: Client) -> (SocketAddr, FromServerMessage) {
    (multicast_address(), FromServerMessage::BroadcastClientInfo(client_info))
}

/// The row of events in which what is sent comes in, one message in each datagram.
pub open spec fn datagrams(sent: Seq<(SocketAddr, FromServerMessage)>) -> Seq<BroadcastEvent> {
    sent.map_values(
        |sent: (SocketAddr, FromServerMessage)| BroadcastEvent::Datagram(Some(sent.1)),
    )
}

/// What a row of clients sends to announce them.
pub open spec fn announcements_of(clients: Seq<Client>) -> Seq<(SocketAddr, FromServerMessage)> {
    clients.map_values(|client: Client| announcement(client))
}

/// Which clients bear another name than `client_info`.
pub open spec fn others(client_info: Client) -> spec_fn(Client) -> bool {
    |client: Client| client.hash_name@ != client_info.hash_name@
}

/// Of the clients that announce themselves, whatever else comes in between, exactly those of
/// another name are handed on, in order, each as often as it is heard, and unchanged.
pub proof fn law_other_clients_are_forwarded(client_info: Client, events: Seq<BroadcastEvent>)
    ensures
        forwarded(client_info, events) == heard(events).filter(others(client_info)),
    decreases events.len(),
{
    reveal(Seq::filter);
    if events.len() > 0 {
        let rest = events.drop_last();
        law_other_clients_are_forwarded(client_info, rest);
        if let BroadcastEvent::Datagram(Some(FromServerMessage::BroadcastClientInfo(info))) =
            events.last() {
            assert(heard(events) == heard(rest).push(info));
            assert(heard(events).drop_last() == heard(rest));
        }
    }
}

/// Of a row of datagrams, exactly the clients of another name are handed on, in order, each as
/// often as it is heard, and unchanged.
pub proof fn law_row_of_clients_is_forwarded(client_info: Client, clients: Seq<Client>)
    ensures
        forwarded(client_info, datagrams(announcements_of(clients))) == clients.filter(
            others(client_info),
        ),
{
    lemma_datagrams_are_heard(clients);
    law_other_clients_are_forwarded(client_info, datagrams(announcements_of(clients)));
}

/// A run of an announcer sends its own announcement to the multicast address, once at the start and once whenever it is
/// asked to, and nothing else. The first one goes out before anything is received.
pub proof fn law_announcements_are_counted(client_info: Client, events: Seq<BroadcastEvent>)
    requires
        is_run(events),
    ensures
        announcements(client_info, events) == Seq::new(
            1 + triggers(events),
            |i: int| announcement(client_info),
        ),
        announcements(client_info, events.take(1)) == seq![announcement(client_info)],
    decreases events.len(),
{
    reveal(Seq::filter);
    if events.len() == 1 {
        let rest = events.drop_last();
        assert(events.take(1) == events);
        assert(triggers(rest) == 0);
        assert(announcements(client_info, rest).len() == 0);
        assert(events.last() is Started);
        assert(announcements(client_info, events) == announcements(client_info, rest).push(
            announcement(client_info),
        ));
    } else {
        let rest = events.drop_last();
        assert forall|i: int| 0 < i < rest.len() implies !((#[trigger] rest[i]) is Started) by {
            assert(rest[i] == events[i]);
        }
        assert(rest.take(1) == events.take(1));
        law_announcements_are_counted(client_info, rest);
        assert(!(events[events.len() - 1] is Started));
    }
}

/// That no announcement will be asked for any more, or that something is received, sends none.
pub proof fn law_nothing_else_is_announced(
    client_info: Client,
    events: Seq<BroadcastEvent>,
    event: BroadcastEvent,
)
    requires
        event is TriggerClosed || event is Datagram,
    ensures
        announcements(client_info, events.push(event)) == announcements(client_info, events),
        triggers(events.push(event)) == triggers(events),
{
    reveal(Seq::filter);
    assert(events.push(event).drop_last() == events);
}

/// Where everything that a run of one announcer sends is received, a node of another name hands
/// the announcer on unchanged, exactly once for each announcement, and a node of the same name
/// never.
pub proof fn law_announcer_is_forwarded(
    announcer: Client,
    listener: Client,
    events: Seq<BroadcastEvent>,
)
    requires
        is_run(events),
    ensures
        forwarded(listener, datagrams(announcements(announcer, events))) == (if listener.hash_name@
            != announcer.hash_name@ {
            Seq::new(1 + triggers(events), |i: int| announcer)
        } else {
            Seq::empty()
        }),
{
    let clients = Seq::new(1 + triggers(events), |i: int| announcer);
    law_announcements_are_counted(announcer, events);
    assert(announcements(announcer, events) == announcements_of(clients));
    law_row_of_clients_is_forwarded(listener, clients);
    lemma_filter_copies(announcer, 1 + triggers(events), others(listener));
}

proof fn lemma_datagrams_are_heard(clients: Seq<Client>)
    ensures
        heard(datagrams(announcements_of(clients))) == clients,
    decreases clients.len(),
{
    if clients.len() > 0 {
        let rest = clients.drop_last();
        lemma_datagrams_are_heard(rest);
        assert(datagrams(announcements_of(clients)).drop_last() == datagrams(announcements_of(rest)));
    }
}

proof fn lemma_filter_copies(client: Client, count: nat, wanted: spec_fn(Client) -> bool)
    ensures
        Seq::new(count, |i: int| client).filter(wanted) == (if wanted(client) {
            Seq::new(count, |i: int| client)
        } else {
            Seq::empty()
        }),
    decreases count,
{
    reveal(Seq::filter);
    if count > 0 {
        let rest = (count - 1) as nat;
        lemma_filter_copies(client, rest, wanted);
        assert(Seq::new(count, |i: int| client).drop_last() == Seq::new(rest, |i: int| client));
    }
}

/// Announcements go to port 7788 of the multicast group 239.255.42.98, and to no other address.
pub proof fn law_where_announcements_go(client_info: Client, event: BroadcastEvent)
    ensures
        announced(client_info, event) matches BroadcastAction::Announce { to, message } ==> {
            &&& to matches SocketAddr::V4 { octets, port }
            &&& octets@ == seq![239u8, 255, 42, 98]
            &&& port == 7788
            &&& message == FromServerMessage::BroadcastClientInfo(client_info)
        },
        multicast_address() matches SocketAddr::V4 { octets, port } && octets@ == seq![
            239u8,
            255,
            42,
            98,
        ] && port == 7788,
{
}

/// The announcer announces itself exactly on its start and when asked to, hands a client on exactly
/// where one of another name is heard, and then that very client; on anything else it listens on.
pub proof fn law_what_an_event_leads_to(client_info: Client, event: BroadcastEvent)
    ensures
        announced(client_info, event) is Announce <==> event is Started || event is Triggered,
        announced(client_info, event) is Forward <==> (event matches BroadcastEvent::Datagram(
            Some(FromServerMessage::BroadcastClientInfo(info)),
        ) && info.hash_name@ != client_info.hash_name@),
        announced(client_info, event) matches BroadcastAction::Forward(client) ==> event
            == BroadcastEvent::Datagram(Some(FromServerMessage::BroadcastClientInfo(client))),
{
}

/// Over a row, one more event adds to what is handed on exactly where a client of another name is
/// heard, and then that very client; what was handed on before stays.
pub proof fn law_one_more_event_forwards(
    client_info: Client,
    events: Seq<BroadcastEvent>,
    event: BroadcastEvent,
)
    ensures
        forwarded(client_info, Seq::empty()) == Seq::<Client>::empty(),
        match event {
            BroadcastEvent::Datagram(Some(FromServerMessage::BroadcastClientInfo(info))) => {
                forwarded(client_info, events.push(event)) == (if info.hash_name@
                    != client_info.hash_name@ {
                    forwarded(client_info, events).push(info)
                } else {
                    forwarded(client_info, events)
                })
            },
            _ => forwarded(client_info, events.push(event)) == forwarded(client_info, events),
        },
{
    assert(events.push(event).drop_last() =~= events);
}

/// Over a row, one more event adds to what is sent exactly where it is the start or asks for an
/// announcement, and then the own announcement; what was sent before stays.
pub proof fn law_one_more_event_announces(
    client_info: Client,
    events: Seq<BroadcastEvent>,
    event: BroadcastEvent,
)
    ensures
        announcements(client_info, Seq::empty()).len() == 0,
        announcements(client_info, events.push(event)) == (if event is Started
            || event is Triggered {
            announcements(client_info, events).push(
                (multicast_address(), FromServerMessage::BroadcastClientInfo(client_info)),
            )
        } else {
            announcements(client_info, events)
        }),
{
    assert(events.push(event).drop_last() =~= events);
}

} // verus!
