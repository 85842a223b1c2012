//! The connections to the neighbours: what to do as requests and their outcomes come in.

use crate::client::Client;
use crate::messages::DiscoverySettings;
use crate::neighbours::{
    connect, requested, settled, side_of, ClientNeighbours, ManageClient, Side,
};
use crate::network::Network;
use vstd::prelude::*;
use vstd::std_specs::cmp::PartialEqSpec;

verus! {

/// What the connections wait for.
#[derive(Debug)]
pub enum Phase {
    /// The next request.
    Waiting,
    /// Whether the connection to a client stands.
    Connecting { side: Side, client: Client },
    /// The neighbours, to write a client down among them.
    Storing { side: Side, client: Client },
    /// The neighbours, to strike a client out.
    Releasing { client: Client },
    /// Nothing any more.
    Stopped,
}

/// The connections to the neighbours.
#[derive(Debug)]
pub struct Connections {
    /// Whether a task runs the connection below.
    pub prev_task: bool,
    /// Whether a task runs the connection above.
    pub next_task: bool,
    /// What comes next.
    pub phase: Phase,
}

/// What the connections are told.
#[derive(Debug)]
pub enum ManageEvent {
    /// A request came.
    Request(ManageClient),
    /// No request will come any more.
    RequestsClosed,
    /// The connection stands.
    ConnectionOpened,
    /// The connection failed, or nothing was heard of it in time.
    ConnectionFailed,
    /// The neighbours are locked for writing, and were these.
    NeighboursLocked(ClientNeighbours),
    /// The neighbours cannot be locked.
    NeighboursPoisoned,
}

/// What is to be done next.
#[derive(Debug)]
pub enum ManageAction {
    /// Wait for the next request.
    AwaitRequest,
    /// Abort the task on that side, if so marked; start one that connects to the client, and wait
    /// up to so many seconds until it says that the connection stands.
    OpenConnection { side: Side, client: Client, abort_previous: bool, wait_seconds: u64 },
    /// Lock the neighbours for writing.
    LockNeighbours,
    /// Write the neighbours back, then wait for the next request.
    StoreNeighbours { neighbours: ClientNeighbours },
    /// Write the neighbours back, abort the task on the one side or report that the other has
    /// none, look for new neighbours, then wait for the next request.
    ReleaseNeighbours { neighbours: ClientNeighbours, abort: Option<Side>, missing: Option<Side> },
    /// End.
    Stop,
}

impl Connections {
    /// Whether a task runs the connection on one side.
    pub open spec fn task(self, side: Side) -> bool {
        match side {
            Side::Prev => self.prev_task,
            Side::Next => self.next_task,
        }
    }

    /// The connections with the task on one side started or ended, in another phase.
    pub open spec fn with(self, side: Side, task: bool, phase: Phase) -> Connections {
        match side {
            Side::Prev => Connections { prev_task: task, phase, ..self },
            Side::Next => Connections { next_task: task, phase, ..self },
        }
    }

    /// The connections in another phase.
    pub open spec fn in_phase(self, phase: Phase) -> Connections {
        Connections { phase, ..self }
    }

    /// Whether `event` is one that the phase waits for.
    pub open spec fn awaits(self, event: ManageEvent) -> bool {
        match self.phase {
            Phase::Waiting => event is Request || event is RequestsClosed,
            Phase::Connecting { .. } => event is ConnectionOpened || event is ConnectionFailed,
            Phase::Storing { .. } | Phase::Releasing { .. } => event is NeighboursLocked
                || event is NeighboursPoisoned,
            Phase::Stopped => false,
        }
    }

    /// No connections.
    pub fn new() -> (connections: Connections)
        ensures
            connections == (Connections {
                prev_task: false,
                next_task: false,
                phase: Phase::Waiting,
            }),
    {
        Connections { prev_task: false, next_task: false, phase: Phase::Waiting }
    }
}

/// The side from which a client that has gone is struck out. The neighbour above is looked at
/// only where there is none below.
pub open spec fn released_side(neighbours: ClientNeighbours, gone: Client) -> Option<Side> {
    match (neighbours.prev_client, neighbours.next_client) {
        (Some(prev), _) => if prev.eq_spec(&gone) {
            Some(Side::Prev)
        } else {
            None
        },
        (None, Some(next)) => if next.eq_spec(&gone) {
            Some(Side::Next)
        } else {
            None
        },
        (None, None) => None,
    }
}

/// What follows on a request.
pub open spec fn on_request(before: Connections, request: ManageClient) -> (
    Connections,
    ManageAction,
) {
    match request {
        ManageClient::ConnectPrev(client) => on_connect(before, Side::Prev, client),
        ManageClient::ConnectNext(client) => on_connect(before, Side::Next, client),
        ManageClient::Disconnect(client) => (
            before.in_phase(Phase::Releasing { client }),
            ManageAction::LockNeighbours,
        ),
    }
}

/// What follows on the request to connect to a client: the task that runs on its side is aborted,
/// and a new one is started.
pub open spec fn on_connect(before: Connections, side: Side, client: Client) -> (
    Connections,
    ManageAction,
) {
    (
        before.with(side, true, Phase::Connecting { side, client }),
        ManageAction::OpenConnection {
            side,
            client,
            abort_previous: before.task(side),
            wait_seconds: DiscoverySettings::CONNECTION_WAIT,
        },
    )
}

/// What follows once the neighbours are locked: a connected client is written down, a client that
/// has gone is struck out and its task aborted.
pub open spec fn on_locked(before: Connections, neighbours: ClientNeighbours) -> (
    Connections,
    ManageAction,
) {
    match before.phase {
        Phase::Storing { side, client } => (
            before.in_phase(Phase::Waiting),
            ManageAction::StoreNeighbours { neighbours: neighbours.with(side, Some(client)) },
        ),
        Phase::Releasing { client } => on_release(before, neighbours, client),
        _ => (before, ManageAction::AwaitRequest),
    }
}

/// What follows once the neighbours are locked to strike out a client that has gone.
pub open spec fn on_release(
    before: Connections,
    neighbours: ClientNeighbours,
    gone: Client,
) -> (Connections, ManageAction) {
    match released_side(neighbours, gone) {
        Some(side) => (
            before.with(side, false, Phase::Waiting),
            ManageAction::ReleaseNeighbours {
                neighbours: neighbours.with(side, None),
                abort: if before.task(side) {
                    Some(side)
                } else {
                    None
                },
                missing: if before.task(side) {
                    None
                } else {
                    Some(side)
                },
            },
        ),
        None => (
            before.in_phase(Phase::Waiting),
            ManageAction::ReleaseNeighbours { neighbours, abort: None, missing: None },
        ),
    }
}

/// What follows on an event that the connections wait for.
pub open spec fn managed(before: Connections, event: ManageEvent) -> (Connections, ManageAction) {
    match event {
        ManageEvent::Request(request) => on_request(before, request),
        ManageEvent::RequestsClosed | ManageEvent::NeighboursPoisoned => (
            before.in_phase(Phase::Stopped),
            ManageAction::Stop,
        ),
        ManageEvent::ConnectionOpened => (
            before.in_phase(
                Phase::Storing {
                    side: before.phase->Connecting_side,
                    client: before.phase->Connecting_client,
                },
            ),
            ManageAction::LockNeighbours,
        ),
        ManageEvent::ConnectionFailed => (
            before.in_phase(Phase::Waiting),
            ManageAction::AwaitRequest,
        ),
        ManageEvent::NeighboursLocked(neighbours) => on_locked(before, neighbours),
    }
}

impl Connections {
    fn open(&mut self, side: Side, client: Client) -> (action: ManageAction)
        ensures
            (*final(self), action) == on_connect(*old(self), side, client),
    {
        let copy = client.clone();
        let abort_previous = match side {
            Side::Prev => self.prev_task,
            Side::Next => self.next_task,
        };
        match side {
            Side::Prev => {
                self.prev_task = true;
            },
            Side::Next => {
                self.next_task = true;
            },
        }
        self.phase = Phase::Connecting { side, client: copy };
        ManageAction::OpenConnection {
            side,
            client,
            abort_previous,
            wait_seconds: DiscoverySettings::CONNECTION_WAIT,
        }
    }

    fn release(&mut self, neighbours: ClientNeighbours, gone: &Client) -> (action: ManageAction)
        ensures
            (*final(self), action) == on_release(*old(self), neighbours, *gone),
    {
        let mut neighbours = neighbours;
        let mut abort: Option<Side> = None;
        let mut missing: Option<Side> = None;
        let prev_gone = match &neighbours.prev_client {
            Some(prev) => prev.eq(gone),
            None => false,
        };
        let next_gone = match (&neighbours.prev_client, &neighbours.next_client) {
            (None, Some(next)) => next.eq(gone),
            _ => false,
        };
        if prev_gone {
            neighbours.prev_client = None;
            if self.prev_task {
                self.prev_task = false;
                abort = Some(Side::Prev);
            } else {
                missing = Some(Side::Prev);
            }
        } else if next_gone {
            neighbours.next_client = None;
            if self.next_task {
                self.next_task = false;
                abort = Some(Side::Next);
            } else {
                missing = Some(Side::Next);
            }
        }
        self.phase = Phase::Waiting;
        ManageAction::ReleaseNeighbours { neighbours, abort, missing }
    }
}

impl Network {
    /// Moves the connections on by one event and says what is to be done next.
    pub fn manage_tcp_connections(connections: &mut Connections, event: ManageEvent) -> (action:
        ManageAction)
        requires
            old(connections).awaits(event),
        ensures
            (*final(connections), action) == managed(*old(connections), event),
    {
        let mut phase = Phase::Stopped;
        std::mem::swap(&mut phase, &mut connections.phase);
        match (phase, event) {
            (
                Phase::Waiting,
                ManageEvent::Request(ManageClient::ConnectPrev(client)),
            ) => connections.open(Side::Prev, client),
            (
                Phase::Waiting,
                ManageEvent::Request(ManageClient::ConnectNext(client)),
            ) => connections.open(Side::Next, client),
            (Phase::Waiting, ManageEvent::Request(ManageClient::Disconnect(client))) => {
                connections.phase = Phase::Releasing { client };
                ManageAction::LockNeighbours
            },
            (Phase::Connecting { side, client }, ManageEvent::ConnectionOpened) => {
                connections.phase = Phase::Storing { side, client };
                ManageAction::LockNeighbours
            },
            (Phase::Connecting { .. }, ManageEvent::ConnectionFailed) => {
                connections.phase = Phase::Waiting;
                ManageAction::AwaitRequest
            },
            (Phase::Storing { side, client }, ManageEvent::NeighboursLocked(neighbours)) => {
                connections.phase = Phase::Waiting;
                let mut neighbours = neighbours;
                match side {
                    Side::Prev => {
                        neighbours.prev_client = Some(client);
                    },
                    Side::Next => {
                        neighbours.next_client = Some(client);
                    },
                }
                ManageAction::StoreNeighbours { neighbours }
            },
            (
                Phase::Releasing { client },
                ManageEvent::NeighboursLocked(neighbours),
            ) => connections.release(neighbours, &client),
            _ => ManageAction::Stop,
        }
    }
}

/// The neighbours once an action is done.
pub open spec fn neighbours_after(
    neighbours: ClientNeighbours,
    action: ManageAction,
) -> ClientNeighbours {
    match action {
        ManageAction::StoreNeighbours { neighbours } => neighbours,
        ManageAction::ReleaseNeighbours { neighbours, .. } => neighbours,
        _ => neighbours,
    }
}

/// Whether an event is true of the neighbours: whether it reports them as they are.
pub open spec fn reports(event: ManageEvent, neighbours: ClientNeighbours) -> bool {
    event matches ManageEvent::NeighboursLocked(locked) ==> locked == neighbours
}

/// Whether a task runs for every neighbour, and for a client that is to become one.
pub open spec fn all_served(connections: Connections, neighbours: ClientNeighbours) -> bool {
    &&& forall|side: Side| #[trigger] neighbours.held(side) is Some ==> connections.task(side)
    &&& connections.phase matches Phase::Connecting { side, .. } ==> connections.task(side)
    &&& connections.phase matches Phase::Storing { side, .. } ==> connections.task(side)
}

/// Whether a client that is to become a neighbour of `current` has a name and stands on its side.
pub open spec fn candidate_placed(connections: Connections, current: Client) -> bool {
    &&& connections.phase matches Phase::Connecting { side, client } ==> client.is_named()
        && side_of(current, client) == side
    &&& connections.phase matches Phase::Storing { side, client } ==> client.is_named()
        && side_of(current, client) == side
}

/// Whether a request to connect is for a client with a name, on its side of `current`.
pub open spec fn request_placed(event: ManageEvent, current: Client) -> bool {
    &&& event matches ManageEvent::Request(ManageClient::ConnectPrev(client)) ==> client.is_named()
        && side_of(current, client) == Side::Prev
    &&& event matches ManageEvent::Request(ManageClient::ConnectNext(client)) ==> client.is_named()
        && side_of(current, client) == Side::Next
}

/// At the start no neighbour is without a task.
pub proof fn law_start_is_served()
    ensures
        all_served(
            Connections { prev_task: false, next_task: false, phase: Phase::Waiting },
            ClientNeighbours::none(),
        ),
{
}

/// A task runs for every neighbour, in every state: so none is ever found missing.
pub proof fn law_every_neighbour_has_a_task(
    before: Connections,
    neighbours: ClientNeighbours,
    event: ManageEvent,
)
    requires
        before.awaits(event),
        reports(event, neighbours),
        all_served(before, neighbours),
    ensures
        all_served(
            managed(before, event).0,
            neighbours_after(neighbours, managed(before, event).1),
        ),
        managed(before, event).1 matches ManageAction::ReleaseNeighbours { missing, .. }
            ==> missing is None,
{
    let (after, action) = managed(before, event);
    let kept = neighbours_after(neighbours, action);
    assert forall|side: Side| #[trigger] kept.held(side) is Some implies after.task(side) by {
        assert(neighbours.held(side) is Some ==> before.task(side));
    }
    if let ManageEvent::NeighboursLocked(locked) = event {
        if let Phase::Releasing { client } = before.phase {
            if let Some(side) = released_side(locked, client) {
                assert(neighbours.held(side) is Some);
            }
        }
    }
}

/// The neighbours of `current` stay on their sides, whatever comes in.
pub proof fn law_neighbours_stay_placed(
    before: Connections,
    neighbours: ClientNeighbours,
    event: ManageEvent,
    current: Client,
)
    requires
        before.awaits(event),
        reports(event, neighbours),
        request_placed(event, current),
        candidate_placed(before, current),
        neighbours.placed(current),
    ensures
        candidate_placed(managed(before, event).0, current),
        neighbours_after(neighbours, managed(before, event).1).placed(current),
{
    let kept = neighbours_after(neighbours, managed(before, event).1);
    assert forall|side: Side| #[trigger] kept.held(side) matches Some(client) implies {
        let client = kept.held(side)->Some_0;
        client.is_named() && side_of(current, client) == side
    } by {
        assert(neighbours.held(side) is Some ==> side_of(
            current,
            neighbours.held(side)->Some_0,
        ) == side);
    }
}

/// A client becomes the neighbour on its side once the connection to it stands, and the other
/// neighbour stays.
pub proof fn law_connected_client_becomes_neighbour(
    before: Connections,
    neighbours: ClientNeighbours,
    side: Side,
    client: Client,
)
    requires
        before.phase is Waiting,
    ensures
        ({
            let (opening, first) = managed(before, ManageEvent::Request(connect(side, client)));
            let (storing, second) = managed(opening, ManageEvent::ConnectionOpened);
            let (after, third) = managed(storing, ManageEvent::NeighboursLocked(neighbours));
            &&& first == ManageAction::OpenConnection {
                side,
                client,
                abort_previous: before.task(side),
                wait_seconds: 5,
            }
            &&& opening.awaits(ManageEvent::ConnectionOpened)
            &&& second == ManageAction::LockNeighbours
            &&& storing.awaits(ManageEvent::NeighboursLocked(neighbours))
            &&& third == ManageAction::StoreNeighbours {
                neighbours: neighbours.with(side, Some(client)),
            }
            &&& after == before.with(side, true, Phase::Waiting)
        }),
{
}

/// An announcement that asks for a connection leaves the settled neighbours once it stands.
pub proof fn law_announcement_is_settled(
    before: Connections,
    neighbours: ClientNeighbours,
    current: Client,
    processed: Client,
)
    requires
        before.phase is Waiting,
        requested(current, processed, neighbours) is Some,
    ensures
        ({
            let request = requested(current, processed, neighbours)->Some_0;
            let (opening, _) = managed(before, ManageEvent::Request(request));
            let (storing, _) = managed(opening, ManageEvent::ConnectionOpened);
            managed(storing, ManageEvent::NeighboursLocked(neighbours)).1
                == ManageAction::StoreNeighbours {
                neighbours: settled(current, neighbours, processed),
            }
        }),
{
}

/// A connection that fails leaves the neighbours as they were.
pub proof fn law_failed_connection_keeps_neighbours(
    before: Connections,
    neighbours: ClientNeighbours,
    side: Side,
    client: Client,
)
    requires
        before.phase is Waiting,
    ensures
        ({
            let (opening, first) = managed(before, ManageEvent::Request(connect(side, client)));
            let (after, second) = managed(opening, ManageEvent::ConnectionFailed);
            &&& neighbours_after(neighbours_after(neighbours, first), second) == neighbours
            &&& second == ManageAction::AwaitRequest
            &&& after == before.with(side, true, Phase::Waiting)
        }),
{
}

/// A client that has gone is a neighbour no longer, unless it stood above while another client
/// stood below.
pub proof fn law_gone_client_is_released(
    before: Connections,
    neighbours: ClientNeighbours,
    current: Client,
    gone: Client,
    side: Side,
)
    requires
        before.phase is Waiting,
        neighbours.placed(current),
        neighbours.prev_client is None || neighbours.prev_client->Some_0.eq_spec(&gone)
            || neighbours.next_client is None || !neighbours.next_client->Some_0.eq_spec(&gone),
    ensures
        ({
            let (releasing, _) = managed(
                before,
                ManageEvent::Request(ManageClient::Disconnect(gone)),
            );
            let (_, action) = managed(releasing, ManageEvent::NeighboursLocked(neighbours));
            neighbours_after(neighbours, action).held(side) matches Some(client)
                ==> !client.eq_spec(&gone)
        }),
{
    assert(neighbours.held(Side::Prev) matches Some(client) ==> client.is_named() && side_of(
        current,
        client,
    ) == Side::Prev);
    assert(neighbours.held(Side::Next) matches Some(client) ==> client.is_named() && side_of(
        current,
        client,
    ) == Side::Next);
}

/// Whenever a client has gone, new neighbours are looked for, and then the next request is awaited.
pub proof fn law_gone_client_starts_a_search(
    before: Connections,
    neighbours: ClientNeighbours,
    gone: Client,
)
    requires
        before.phase is Waiting,
    ensures
        ({
            let (releasing, first) = managed(
                before,
                ManageEvent::Request(ManageClient::Disconnect(gone)),
            );
            let (after, second) = managed(releasing, ManageEvent::NeighboursLocked(neighbours));
            &&& first == ManageAction::LockNeighbours
            &&& second is ReleaseNeighbours
            &&& after.phase is Waiting
        }),
{
}

/// A neighbour other than the client that has gone stays.
pub proof fn law_other_neighbour_stays(
    before: Connections,
    neighbours: ClientNeighbours,
    gone: Client,
    side: Side,
)
    requires
        before.phase is Waiting,
        neighbours.held(side) matches Some(client) && !client.eq_spec(&gone),
    ensures
        ({
            let (releasing, _) = managed(
                before,
                ManageEvent::Request(ManageClient::Disconnect(gone)),
            );
            let (_, action) = managed(releasing, ManageEvent::NeighboursLocked(neighbours));
            neighbours_after(neighbours, action).held(side) == neighbours.held(side)
        }),
{
}

/// The connections end exactly where no request will come any more, or the neighbours cannot be
/// locked.
pub proof fn law_when_connections_end(before: Connections, event: ManageEvent)
    requires
        before.awaits(event),
    ensures
        managed(before, event).1 is Stop <==> event is RequestsClosed || event
            is NeighboursPoisoned,
        managed(before, event).0.phase is Stopped <==> managed(before, event).1 is Stop,
{
}

/// The connections and the neighbours after a row of events.
pub open spec fn after_run(
    before: Connections,
    neighbours: ClientNeighbours,
    events: Seq<ManageEvent>,
) -> (Connections, ClientNeighbours)
    decreases events.len(),
{
    if events.len() == 0 {
        (before, neighbours)
    } else {
        let (connections, held) = after_run(before, neighbours, events.drop_last());
        let (after, action) = managed(connections, events.last());
        (after, neighbours_after(held, action))
    }
}

/// Whether a row of events is one that the connections are told: each event is awaited when it
/// comes, and true of the neighbours then.
pub open spec fn is_run(
    before: Connections,
    neighbours: ClientNeighbours,
    events: Seq<ManageEvent>,
) -> bool
    decreases events.len(),
{
    events.len() == 0 || {
        let (connections, held) = after_run(before, neighbours, events.drop_last());
        &&& is_run(before, neighbours, events.drop_last())
        &&& connections.awaits(events.last())
        &&& reports(events.last(), held)
    }
}

/// How often new neighbours are looked for over a row of events.
pub open spec fn searches(
    before: Connections,
    neighbours: ClientNeighbours,
    events: Seq<ManageEvent>,
) -> nat
    decreases events.len(),
{
    if events.len() == 0 {
        0
    } else {
        let (connections, _) = after_run(before, neighbours, events.drop_last());
        let earlier = searches(before, neighbours, events.drop_last());
        if managed(connections, events.last()).1 is ReleaseNeighbours {
            earlier + 1
        } else {
            earlier
        }
    }
}

/// How many clients have gone in a row of events.
pub open spec fn gone_clients(events: Seq<ManageEvent>) -> nat {
    events.filter(
        |event: ManageEvent| event matches ManageEvent::Request(ManageClient::Disconnect(_)),
    ).len()
}

/// Whether, in a row of events, a connection to a client on one side was asked for and stood.
pub open spec fn was_connected(events: Seq<ManageEvent>, side: Side, client: Client) -> bool {
    exists|i: int|
        0 <= i < events.len() - 1 && #[trigger] events[i] == ManageEvent::Request(
            connect(side, client),
        ) && events[i + 1] is ConnectionOpened
}

/// Over a run in which the neighbours can always be locked, new neighbours are looked for exactly
/// once for each client that has gone; for the last one, once the neighbours are locked.
pub proof fn law_one_search_for_each_gone_client(
    before: Connections,
    neighbours: ClientNeighbours,
    events: Seq<ManageEvent>,
)
    requires
        before.phase is Waiting,
        is_run(before, neighbours, events),
        forall|i: int| 0 <= i < events.len() ==> !((#[trigger] events[i]) is NeighboursPoisoned),
    ensures
        gone_clients(events) == searches(before, neighbours, events) + (if after_run(
            before,
            neighbours,
            events,
        ).0.phase is Releasing {
            1nat
        } else {
            0nat
        }),
    decreases events.len(),
{
    reveal(Seq::filter);
    if events.len() > 0 {
        let rest = events.drop_last();
        assert forall|i: int| 0 <= i < rest.len() implies !((
        #[trigger] rest[i]) is NeighboursPoisoned) by {
            assert(rest[i] == events[i]);
        }
        law_one_search_for_each_gone_client(before, neighbours, rest);
        assert(!(events[events.len() - 1] is NeighboursPoisoned));
    }
}

/// Over a run, each side only ever holds the neighbour that it began with, none, or a client to
/// which a connection on that side was asked for and stood.
pub proof fn law_neighbours_were_connected(
    before: Connections,
    neighbours: ClientNeighbours,
    events: Seq<ManageEvent>,
    side: Side,
)
    requires
        before.phase is Waiting,
        is_run(before, neighbours, events),
    ensures
        after_run(before, neighbours, events).1.held(side) matches Some(client)
            ==> neighbours.held(side) == Some(client) || was_connected(events, side, client),
{
    lemma_candidate_was_asked_for(before, neighbours, events, side);
}

proof fn lemma_candidate_was_asked_for(
    before: Connections,
    neighbours: ClientNeighbours,
    events: Seq<ManageEvent>,
    side: Side,
)
    requires
        before.phase is Waiting,
        is_run(before, neighbours, events),
    ensures
        ({
            let (after, held) = after_run(before, neighbours, events);
            &&& after.phase matches Phase::Connecting { side: at, client } ==> events.len() > 0
                && events.last() == ManageEvent::Request(connect(at, client))
            &&& after.phase matches Phase::Storing { side: at, client } ==> was_connected(
                events,
                at,
                client,
            )
            &&& held.held(side) matches Some(client) ==> neighbours.held(side) == Some(client)
                || was_connected(events, side, client)
        }),
    decreases events.len(),
{
    if events.len() > 0 {
        let rest = events.drop_last();
        lemma_candidate_was_asked_for(before, neighbours, rest, side);
        assert forall|at: Side, client: Client| #[trigger]
            was_connected(rest, at, client) implies was_connected(events, at, client) by {
            let i = choose|i: int|
                0 <= i < rest.len() - 1 && #[trigger] rest[i] == ManageEvent::Request(
                    connect(at, client),
                ) && rest[i + 1] is ConnectionOpened;
            assert(events[i] == rest[i] && events[i + 1] == rest[i + 1]);
        }
        let (connections, _) = after_run(before, neighbours, rest);
        if let Phase::Connecting { side: at, client } = connections.phase {
            let i = events.len() - 2;
            assert(events[i] == rest.last());
            assert(events.last() is ConnectionOpened ==> was_connected(events, at, client));
        }
    }
}

/// On a disconnect, whatever the connections and the neighbours are: the client that has gone is
/// struck out below if it stands there, or else above if it stands there and nobody stands below;
/// nothing else of the neighbours changes. A task is aborted exactly where it ran on the side that
/// was struck out, and only there; a side that was struck out without a task is reported. No
/// side that keeps its neighbour loses its task.
pub proof fn law_only_the_gone_neighbour_is_aborted(
    before: Connections,
    neighbours: ClientNeighbours,
    gone: Client,
)
    ensures
        ({
            let (releasing, first) = managed(
                before,
                ManageEvent::Request(ManageClient::Disconnect(gone)),
            );
            let (after, second) = managed(releasing, ManageEvent::NeighboursLocked(neighbours));
            &&& first is LockNeighbours
            &&& releasing.prev_task == before.prev_task
            &&& releasing.next_task == before.next_task
            &&& after.phase is Waiting
            &&& second matches ManageAction::ReleaseNeighbours { neighbours: kept, abort, missing }
            &&& {
                let prev_struck = neighbours.prev_client is Some && kept.prev_client is None;
                let next_struck = neighbours.next_client is Some && kept.next_client is None;
                &&& prev_struck <==> (neighbours.prev_client matches Some(prev) && prev.eq_spec(
                    &gone,
                ))
                &&& next_struck <==> neighbours.prev_client is None && (
                neighbours.next_client matches Some(next) && next.eq_spec(&gone))
                &&& !prev_struck ==> kept.prev_client == neighbours.prev_client
                &&& !next_struck ==> kept.next_client == neighbours.next_client
                &&& abort == Some(Side::Prev) <==> prev_struck && before.prev_task
                &&& abort == Some(Side::Next) <==> next_struck && before.next_task
                &&& missing == Some(Side::Prev) <==> prev_struck && !before.prev_task
                &&& missing == Some(Side::Next) <==> next_struck && !before.next_task
                &&& after.prev_task <==> before.prev_task && abort != Some(Side::Prev)
                &&& after.next_task <==> before.next_task && abort != Some(Side::Next)
            }
        }),
{
}

/// A request to connect aborts a task exactly where one runs on its side, starts one there, and
/// leaves the other side alone; five seconds are given to the connection.
pub proof fn law_connecting_touches_one_side(before: Connections, client: Client)
    ensures
        ({
            let (after, action) = managed(
                before,
                ManageEvent::Request(ManageClient::ConnectPrev(client)),
            );
            &&& after.prev_task
            &&& after.next_task == before.next_task
            &&& after.phase == Phase::Connecting { side: Side::Prev, client }
            &&& action == ManageAction::OpenConnection {
                side: Side::Prev,
                client,
                abort_previous: before.prev_task,
                wait_seconds: 5,
            }
        }),
        ({
            let (after, action) = managed(
                before,
                ManageEvent::Request(ManageClient::ConnectNext(client)),
            );
            &&& after.next_task
            &&& after.prev_task == before.prev_task
            &&& after.phase == Phase::Connecting { side: Side::Next, client }
            &&& action == ManageAction::OpenConnection {
                side: Side::Next,
                client,
                abort_previous: before.next_task,
                wait_seconds: 5,
            }
        }),
{
}

/// A connection that stands puts its client, and no other, on its side, and leaves the other side
/// and the tasks alone. One that fails changes nothing but that the next request is awaited.
pub proof fn law_outcome_of_a_connection(
    before: Connections,
    neighbours: ClientNeighbours,
    side: Side,
    client: Client,
)
    requires
        before.phase == (Phase::Connecting { side, client }),
    ensures
        ({
            let (storing, first) = managed(before, ManageEvent::ConnectionOpened);
            let (after, second) = managed(storing, ManageEvent::NeighboursLocked(neighbours));
            &&& first is LockNeighbours
            &&& storing.prev_task == before.prev_task
            &&& storing.next_task == before.next_task
            &&& after.prev_task == before.prev_task
            &&& after.next_task == before.next_task
            &&& after.phase is Waiting
            &&& second matches ManageAction::StoreNeighbours { neighbours: kept }
            &&& kept.prev_client == (if side == Side::Prev {
                Some(client)
            } else {
                neighbours.prev_client
            })
            &&& kept.next_client == (if side == Side::Next {
                Some(client)
            } else {
                neighbours.next_client
            })
        }),
        ({
            let (after, action) = managed(before, ManageEvent::ConnectionFailed);
            &&& action is AwaitRequest
            &&& after.phase is Waiting
            &&& after.prev_task == before.prev_task
            &&& after.next_task == before.next_task
        }),
{
}

/// Without requests to come, or where the neighbours cannot be locked, the connections end, and
/// no task is touched.
pub proof fn law_end_touches_no_task(before: Connections)
    ensures
        managed(before, ManageEvent::RequestsClosed) == managed(
            before,
            ManageEvent::NeighboursPoisoned,
        ),
        managed(before, ManageEvent::RequestsClosed).1 is Stop,
        managed(before, ManageEvent::RequestsClosed).0.phase is Stopped,
        managed(before, ManageEvent::RequestsClosed).0.prev_task == before.prev_task,
        managed(before, ManageEvent::RequestsClosed).0.next_task == before.next_task,
{
}

/// Which events a phase waits for: a request or the end of them; the outcome of a connection; or
/// the neighbours.
pub proof fn law_what_is_awaited(before: Connections, event: ManageEvent)
    ensures
        before.awaits(event) <==> {
            ||| before.phase is Waiting && (event is Request || event is RequestsClosed)
            ||| before.phase is Connecting && (event is ConnectionOpened
                || event is ConnectionFailed)
            ||| (before.phase is Storing || before.phase is Releasing) && (
            event is NeighboursLocked || event is NeighboursPoisoned)
        },
{
}

} // verus!
