//! The two neighbours of a client, and which clients are to become one.

use crate::client::Client;
use crate::network::Network;
use crate::word::distance;
use std::cmp::Ordering;
use vstd::pervasive::unreached;
use vstd::prelude::*;
use vstd::std_specs::cmp::PartialEqSpec;

verus! {

/// The side of a client on which a neighbour stands.
#[derive(Clone, Copy, Debug, PartialEq, Eq, Structural)]
pub enum Side {
    /// Below the client.
    Prev,
    /// Above the client, or at its place.
    Next,
}

/// The neighbours of a client.
#[derive(Debug)]
pub struct ClientNeighbours {
    pub next_client: Option<Client>,
    pub prev_client: Option<Client>,
}

/// What is asked of the connections to the neighbours.
#[derive(Debug)]
pub enum ManageClient {
    /// Connect to a client that is to become the neighbour below.
    ConnectPrev(Client),
    /// Connect to a client that is to become the neighbour above.
    ConnectNext(Client),
    /// A client has gone.
    Disconnect(Client),
}

impl ClientNeighbours {
    /// No neighbours.
    pub fn new() -> (neighbours: ClientNeighbours)
        ensures
            neighbours == ClientNeighbours::none(),
    {
        ClientNeighbours { next_client: None, prev_client: None }
    }

    /// No neighbours.
    pub open spec fn none() -> ClientNeighbours {
        ClientNeighbours { next_client: None, prev_client: None }
    }

    /// The neighbour on one side.
    pub open spec fn held(self, side: Side) -> Option<Client> {
        match side {
            Side::Prev => self.prev_client,
            Side::Next => self.next_client,
        }
    }

    /// The neighbours with another one on one side.
    pub open spec fn with(self, side: Side, client: Option<Client>) -> ClientNeighbours {
        match side {
            Side::Prev => ClientNeighbours { prev_client: client, ..self },
            Side::Next => ClientNeighbours { next_client: client, ..self },
        }
    }

    /// Whether the neighbours of `current` have names and stand on their sides of it.
    pub open spec fn placed(self, current: Client) -> bool {
        forall|side: Side| #[trigger]
            self.held(side) matches Some(client) ==> client.is_named() && side_of(
                current,
                client,
            ) == side
    }
}

impl Clone for ClientNeighbours {
    fn clone(&self) -> (copy: Self)
        ensures
            copy == *self,
    {
        let next_client = match &self.next_client {
            Some(client) => Some(client.clone()),
            None => None,
        };
        let prev_client = match &self.prev_client {
            Some(client) => Some(client.clone()),
            None => None,
        };
        ClientNeighbours { next_client, prev_client }
    }
}

/// The side of `current` on which `client` stands.
pub open spec fn side_of(current: Client, client: Client) -> Side {
    if current.number() > client.number() {
        Side::Prev
    } else {
        Side::Next
    }
}

/// Whether `client` is nearer to `current` than the neighbour `held`, if there is one.
pub open spec fn is_nearer(current: Client, held: Option<Client>, client: Client) -> bool {
    match held {
        Some(held) => distance(current.number(), client.number()) < distance(
            current.number(),
            held.number(),
        ),
        None => true,
    }
}

/// The request to connect to a neighbour on one side.
pub open spec fn connect(side: Side, client: Client) -> ManageClient {
    match side {
        Side::Prev => ManageClient::ConnectPrev(client),
        Side::Next => ManageClient::ConnectNext(client),
    }
}

/// What the announcement of `processed` asks for: a connection, if it is nearer to `current` than
/// the neighbour on its side.
pub open spec fn requested(
    current: Client,
    processed: Client,
    neighbours: ClientNeighbours,
) -> Option<ManageClient> {
    let side = side_of(current, processed);
    if is_nearer(current, neighbours.held(side), processed) {
        Some(connect(side, processed))
    } else {
        None
    }
}

fn nearer(current: &Client, held: &Option<Client>, client: &Client) -> (result: bool)
    requires
        current.is_named(),
        client.is_named(),
        held matches Some(held) ==> held.is_named(),
    ensures
        result == is_nearer(*current, *held, *client),
{
    match held {
        Some(held) => match (current.distance(held), current.distance(client)) {
            (Ok(kept), Ok(offered)) => match kept.compare(&offered) {
                Ordering::Greater => true,
                _ => false,
            },
            _ => unreached(),
        },
        None => true,
    }
}

impl Network {
    /// Decides what the announcement of the client `processed` asks for: a connection, if it is
    /// nearer to `current` than the neighbour on its side.
    pub fn process_broadcast_client_info(
        current: &Client,
        processed: Client,
        neighbours: &ClientNeighbours,
    ) -> (request: Option<ManageClient>)
        requires
            current.is_named(),
            processed.is_named(),
            neighbours.held(side_of(*current, processed)) matches Some(held) ==> held.is_named(),
        ensures
            request == requested(*current, processed, *neighbours),
    {
        match current.cmp(&processed) {
            Ordering::Greater => if nearer(current, &neighbours.prev_client, &processed) {
                Some(ManageClient::ConnectPrev(processed))
            } else {
                None
            },
            _ => if nearer(current, &neighbours.next_client, &processed) {
                Some(ManageClient::ConnectNext(processed))
            } else {
                None
            },
        }
    }
}

/// The neighbours once the announcement of `processed` has been answered and a connection that it
/// asked for stands.
pub open spec fn settled(
    current: Client,
    neighbours: ClientNeighbours,
    processed: Client,
) -> ClientNeighbours {
    if requested(current, processed, neighbours) is Some {
        neighbours.with(side_of(current, processed), Some(processed))
    } else {
        neighbours
    }
}

/// The neighbours after a row of announcements, each settled before the next is processed.
pub open spec fn settled_all(
    current: Client,
    neighbours: ClientNeighbours,
    clients: Seq<Client>,
) -> ClientNeighbours
    decreases clients.len(),
{
    if clients.len() == 0 {
        neighbours
    } else {
        settled(
            current,
            settled_all(current, neighbours, clients.drop_last()),
            clients.last(),
        )
    }
}

/// Only a client that is strictly nearer than the neighbour on its side is asked for.
pub proof fn law_request_is_nearer(
    current: Client,
    processed: Client,
    neighbours: ClientNeighbours,
    held: Client,
)
    requires
        requested(current, processed, neighbours) is Some,
        neighbours.held(side_of(current, processed)) == Some(held),
    ensures
        distance(current.number(), processed.number()) < distance(
            current.number(),
            held.number(),
        ),
{
}

/// The first client on a side is always asked for.
pub proof fn law_first_client_is_requested(
    current: Client,
    processed: Client,
    neighbours: ClientNeighbours,
)
    requires
        neighbours.held(side_of(current, processed)) is None,
    ensures
        requested(current, processed, neighbours) == Some(
            connect(side_of(current, processed), processed),
        ),
{
}

/// A client that is a neighbour already is not asked for again, from whatever address it announces
/// itself.
pub proof fn law_neighbour_is_not_requested_again(
    current: Client,
    neighbours: ClientNeighbours,
    side: Side,
    client: Client,
)
    requires
        client.is_named(),
        neighbours.placed(current),
        neighbours.held(side) matches Some(held) && client.eq_spec(&held),
    ensures
        requested(current, client, neighbours) is None,
{
}

/// To settle an announcement leaves the neighbours on their sides.
pub proof fn law_settled_is_placed(
    current: Client,
    neighbours: ClientNeighbours,
    processed: Client,
)
    requires
        processed.is_named(),
        neighbours.placed(current),
    ensures
        settled(current, neighbours, processed).placed(current),
{
    let after = settled(current, neighbours, processed);
    assert forall|side: Side| #[trigger] after.held(side) matches Some(client) implies {
        let client = after.held(side)->Some_0;
        client.is_named() && side_of(current, client) == side
    } by {
        assert(neighbours.held(side) is Some ==> side_of(
            current,
            neighbours.held(side)->Some_0,
        ) == side);
    }
}

/// To settle an announcement never takes a neighbour away or puts one farther off.
pub proof fn law_neighbours_only_come_nearer(
    current: Client,
    neighbours: ClientNeighbours,
    processed: Client,
    side: Side,
)
    requires
        neighbours.held(side) is Some,
    ensures
        !is_nearer(
            current,
            settled(current, neighbours, processed).held(side),
            neighbours.held(side)->Some_0,
        ),
{
}

/// After a row of announcements, each settled before the next is processed, the neighbour on a
/// side is one of the announced clients on that side, and none of them is nearer. There is none
/// exactly where no client on that side was announced.
pub proof fn law_neighbours_are_nearest(current: Client, clients: Seq<Client>)
    requires
        forall|i: int| 0 <= i < clients.len() ==> (#[trigger] clients[i]).is_named(),
    ensures
        forall|side: Side|
            (#[trigger] settled_all(current, ClientNeighbours::none(), clients).held(
                side,
            )) matches Some(held) ==> clients.contains(held) && side_of(current, held) == side,
        forall|i: int|
            0 <= i < clients.len() ==> !is_nearer(
                current,
                settled_all(current, ClientNeighbours::none(), clients).held(
                    side_of(current, clients[i]),
                ),
                #[trigger] clients[i],
            ),
    decreases clients.len(),
{
    let none = ClientNeighbours::none();
    let after = settled_all(current, none, clients);
    if clients.len() > 0 {
        let rest = clients.drop_last();
        let before = settled_all(current, none, rest);
        assert forall|i: int| 0 <= i < rest.len() implies (#[trigger] rest[i]).is_named() by {
            assert(rest[i] == clients[i]);
        }
        law_neighbours_are_nearest(current, rest);
        assert forall|side: Side| (#[trigger] after.held(side)) matches Some(held) implies {
            let held = after.held(side)->Some_0;
            clients.contains(held) && side_of(current, held) == side
        } by {
            let held = after.held(side)->Some_0;
            if before.held(side) == Some(held) {
                let i = choose|i: int| 0 <= i < rest.len() && rest[i] == held;
                assert(clients[i] == held);
            } else {
                assert(clients[clients.len() - 1] == held);
            }
        }
        assert forall|i: int| 0 <= i < clients.len() implies !is_nearer(
            current,
            after.held(side_of(current, clients[i])),
            #[trigger] clients[i],
        ) by {
            if i < rest.len() {
                assert(rest[i] == clients[i]);
                law_neighbours_only_come_nearer(
                    current,
                    before,
                    clients.last(),
                    side_of(current, clients[i]),
                );
            }
        }
    }
}

/// What an announcement asks for, by the numbers themselves: a client below `current` is asked for
/// below, any other above; and it is asked for if and only if nobody stands on that side yet, or
/// its distance to `current` is less than that of the one who does.
pub proof fn law_request_goes_by_the_distance(
    current: Client,
    processed: Client,
    neighbours: ClientNeighbours,
)
    ensures
        current.number() > processed.number() ==> {
            let request = requested(current, processed, neighbours);
            &&& request is Some ==> request == Some(ManageClient::ConnectPrev(processed))
            &&& request is Some <==> match neighbours.prev_client {
                None => true,
                Some(held) => distance(current.number(), processed.number()) < distance(
                    current.number(),
                    held.number(),
                ),
            }
        },
        current.number() <= processed.number() ==> {
            let request = requested(current, processed, neighbours);
            &&& request is Some ==> request == Some(ManageClient::ConnectNext(processed))
            &&& request is Some <==> match neighbours.next_client {
                None => true,
                Some(held) => distance(current.number(), processed.number()) < distance(
                    current.number(),
                    held.number(),
                ),
            }
        },
{
}

/// Of two clients on one side of `current`, each heard while the other is the neighbour there, the
/// nearer one is asked for and the farther one is not.
pub proof fn law_nearer_of_two_is_requested(current: Client, near: Client, far: Client)
    requires
        (current.number() > near.number()) == (current.number() > far.number()),
        distance(current.number(), near.number()) < distance(current.number(), far.number()),
    ensures
        forall|neighbours: ClientNeighbours|
            (if current.number() > near.number() {
                neighbours.prev_client
            } else {
                neighbours.next_client
            }) == Some(far) ==> (#[trigger] requested(current, near, neighbours)) is Some,
        forall|neighbours: ClientNeighbours|
            (if current.number() > near.number() {
                neighbours.prev_client
            } else {
                neighbours.next_client
            }) == Some(near) ==> (#[trigger] requested(current, far, neighbours)) is None,
{
}

/// To settle an announcement changes nothing but the side on which the client stands, and that
/// only where it is asked for: then the client itself stands there.
pub proof fn law_settling_changes_one_side(
    current: Client,
    neighbours: ClientNeighbours,
    processed: Client,
)
    ensures
        ({
            let after = settled(current, neighbours, processed);
            let asked = requested(current, processed, neighbours) is Some;
            let below = current.number() > processed.number();
            &&& after.prev_client == (if asked && below {
                Some(processed)
            } else {
                neighbours.prev_client
            })
            &&& after.next_client == (if asked && !below {
                Some(processed)
            } else {
                neighbours.next_client
            })
        }),
{
}

/// After a row of announcements, each settled before the next is processed, the neighbour below is
/// an announced client below `current`, and no announced client below has a smaller distance; the
/// neighbour above likewise; and on a side where a client was announced there is a neighbour.
pub proof fn law_neighbours_have_the_least_distance(current: Client, clients: Seq<Client>)
    requires
        forall|i: int| 0 <= i < clients.len() ==> (#[trigger] clients[i]).is_named(),
    ensures
        ({
            let after = settled_all(current, ClientNeighbours::none(), clients);
            &&& after.prev_client matches Some(held) ==> clients.contains(held)
                && current.number() > held.number()
            &&& after.next_client matches Some(held) ==> clients.contains(held)
                && current.number() <= held.number()
            &&& forall|i: int|
                0 <= i < clients.len() && current.number() > (#[trigger] clients[i]).number()
                    ==> (after.prev_client matches Some(held) && distance(
                    current.number(),
                    held.number(),
                ) <= distance(current.number(), clients[i].number()))
            &&& forall|i: int|
                0 <= i < clients.len() && current.number() <= (#[trigger] clients[i]).number()
                    ==> (after.next_client matches Some(held) && distance(
                    current.number(),
                    held.number(),
                ) <= distance(current.number(), clients[i].number()))
        }),
{
    law_neighbours_are_nearest(current, clients);
    let after = settled_all(current, ClientNeighbours::none(), clients);
    assert(after.held(Side::Prev) == after.prev_client);
    assert(after.held(Side::Next) == after.next_client);
    assert forall|i: int|
        0 <= i < clients.len() && current.number() > (#[trigger] clients[i]).number() implies {
        after.prev_client matches Some(held) && distance(current.number(), held.number())
            <= distance(current.number(), clients[i].number())
    } by {
        assert(!is_nearer(current, after.held(side_of(current, clients[i])), clients[i]));
    }
    assert forall|i: int|
        0 <= i < clients.len() && current.number() <= (#[trigger] clients[i]).number() implies {
        after.next_client matches Some(held) && distance(current.number(), held.number())
            <= distance(current.number(), clients[i].number())
    } by {
        assert(!is_nearer(current, after.held(side_of(current, clients[i])), clients[i]));
    }
}

/// A client without neighbours has none on either side.
pub proof fn law_none_is_empty()
    ensures
        ClientNeighbours::none().prev_client is None,
        ClientNeighbours::none().next_client is None,
{
}

} // verus!
