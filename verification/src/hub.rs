//! Subscriber hub: per-subscriber session state, subscription filters,
//! the handshake snapshot, and the dispatch decision for inbound
//! messages.

use vstd::prelude::*;
use crate::domain::{Drone, DroneId, Mission, TrackingResult};
use crate::events::{
    ClientMessage, DroneCommand, Event, EventPayload, FullStateEvent, ServerMessage,
};

verus! {

/// Session state of one connected subscriber.
#[derive(Debug)]
pub struct ClientState {
    /// Subscribed drone ids; `None` means all drones.
    pub subscriptions: Option<Vec<DroneId>>,
    pub connected_at_ms: i64,
}

/// What the hub decides to do with one inbound message.
pub enum HubAction {
    /// Replace the client's subscription filter.
    SetSubscriptions(Option<Vec<DroneId>>),
    /// Remove the listed ids from the filter, or clear it entirely.
    RemoveSubscriptions(Option<Vec<DroneId>>),
    /// State is served out of band; acknowledge only.
    AcknowledgeStateRequest,
    /// Hand the command to the registered command handler.
    Dispatch(DroneCommand),
    /// A heartbeat; log only.
    Heartbeat(i64),
}

/// Whether an event passes a client filter: with no filter every event
/// passes; with a filter, events about a listed drone pass, and events
/// about no particular drone pass too.
pub open spec fn spec_forward(state: ClientState, e: Event) -> bool {
    match state.subscriptions {
        Option::<Vec<DroneId>>::None => true,
        Option::<Vec<DroneId>>::Some(subs) => match spec_event_drone_id(e) {
            Option::<Seq<char>>::None => true,
            Option::<Seq<char>>::Some(id) => exists|i: int|
                0 <= i < subs@.len() && (#[trigger] subs@[i]).0@ == id,
        },
    }
}

/// The drone a payload speaks about, if any.
pub open spec fn spec_event_drone_id(e: Event) -> Option<Seq<char>> {
    match e.payload {
        EventPayload::DronePosition(p) => Some(p.drone_id.0@),
        EventPayload::DroneStatus(p) => Some(p.drone_id.0@),
        EventPayload::DroneTelemetry(p) => Some(p.drone_id.0@),
        EventPayload::DroneConnection(p) => Some(p.drone_id.0@),
        EventPayload::Waypoint(p) => Some(p.drone_id.0@),
        _ => None,
    }
}

/// The index of the first client entry with the given id.
pub open spec fn find_client(s: Seq<(u128, ClientState)>, id: u128, k: int) -> Option<int>
    decreases s.len() - k,
{
    if k < 0 || k >= s.len() {
        None
    } else if s[k].0 == id {
        Some(k)
    } else {
        find_client(s, id, k + 1)
    }
}

/// When no entry is found, no entry carries the id.
pub proof fn lemma_find_client_none(s: Seq<(u128, ClientState)>, id: u128, k: int)
    requires
        0 <= k <= s.len(),
        find_client(s, id, k) is None,
    ensures
        forall|q: int| k <= q < s.len() ==> (#[trigger] s[q]).0 != id,
    decreases s.len() - k,
{
    if k < s.len() {
        lemma_find_client_none(s, id, k + 1);
    }
}

/// Whether a drone id is listed in a removal list.
pub open spec fn id_listed(remove: Seq<DroneId>, id: Seq<char>) -> bool {
    exists|j: int| 0 <= j < remove.len() && (#[trigger] remove[j]).0@ == id
}

/// The ids that survive a removal, in order.
pub open spec fn spec_remove_ids(subs: Seq<DroneId>, remove: Seq<DroneId>) -> Seq<Seq<char>>
    decreases subs.len(),
{
    if subs.len() == 0 {
        Seq::empty()
    } else {
        let rest = spec_remove_ids(subs.drop_last(), remove);
        if id_listed(remove, subs.last().0@) {
            rest
        } else {
            rest.push(subs.last().0@)
        }
    }
}

/// The subscriber hub.
pub struct WebSocketHub {
    clients: Vec<(u128, ClientState)>,
    message_count: u64,
}

impl WebSocketHub {
    pub closed spec fn spec_clients(self) -> Seq<(u128, ClientState)> {
        self.clients@
    }

    pub closed spec fn spec_message_count(self) -> int {
        self.message_count as int
    }

    /// Client ids are unique.
    pub closed spec fn wf(self) -> bool {
        forall|i: int, j: int|
            0 <= i < j < self.clients@.len() ==> self.clients@[i].0 != self.clients@[j].0
    }

    pub fn new() -> (r: WebSocketHub)
        ensures
            r.wf(),
            r.spec_clients().len() == 0,
            r.spec_message_count() == 0,
    {
        WebSocketHub { clients: Vec::new(), message_count: 0 }
    }

    /// Registers a client with no filter (all drones). A known id has
    /// its session replaced by the fresh one.
    pub fn register_client(&mut self, client_id: u128, at_ms: i64)
        requires
            old(self).wf(),
        ensures
            final(self).wf(),
            final(self).spec_message_count() == old(self).spec_message_count(),
            find_client(old(self).spec_clients(), client_id, 0) matches Some(k) ==> {
                &&& final(self).spec_clients().len() == old(self).spec_clients().len()
                &&& (forall|q: int|
                    0 <= q < old(self).spec_clients().len() && q != k
                        ==> final(self).spec_clients()[q] == old(self).spec_clients()[q])
                &&& final(self).spec_clients()[k].0 == client_id
                &&& final(self).spec_clients()[k].1.subscriptions is None
                &&& final(self).spec_clients()[k].1.connected_at_ms == at_ms
            },
            find_client(old(self).spec_clients(), client_id, 0) is None ==> {
                &&& final(self).spec_clients().len() == old(self).spec_clients().len() + 1
                &&& (forall|q: int|
                    0 <= q < old(self).spec_clients().len() ==> final(self).spec_clients()[q]
                        == old(self).spec_clients()[q])
                &&& final(self).spec_clients().last().0 == client_id
                &&& final(self).spec_clients().last().1.subscriptions is None
                &&& final(self).spec_clients().last().1.connected_at_ms == at_ms
            },
    {
        let state = ClientState { subscriptions: None, connected_at_ms: at_ms };
        let n: usize = self.clients.len();
        let mut i: usize = 0;
        let mut at: Option<usize> = None;
        while i < n
            invariant
                i <= n,
                n == self.clients@.len(),
                *self == *old(self),
                at matches Some(k) ==> find_client(self.clients@, client_id, 0) == Some(k as int)
                    && (k as int) < n && self.clients@[k as int].0 == client_id,
                at is None ==> find_client(self.clients@, client_id, 0) == find_client(
                    self.clients@,
                    client_id,
                    i as int,
                ),
            decreases n - i,
        {
            if at.is_none() && self.clients[i].0 == client_id {
                proof {
                    assert(find_client(self.clients@, client_id, i as int) == Some(i as int));
                }
                at = Some(i);
            } else {
                proof {
                    if at is None {
                        assert(find_client(self.clients@, client_id, i as int) == find_client(
                            self.clients@,
                            client_id,
                            i + 1,
                        ));
                    }
                }
            }
            i += 1;
        }
        proof {
            if at is None {
                assert(find_client(self.clients@, client_id, n as int) is None);
            }
        }
        match at {
            Some(k) => {
                let ghost pre = self.clients@;
                let slot = &mut self.clients[k];
                *slot = (client_id, state);
                proof {
                    assert(self.clients@[k as int].0 == client_id);
                    assert(forall|q: int|
                        0 <= q < self.clients@.len() && q != k as int ==> self.clients@[q]
                            == pre[q]);
                    assert forall|q: int|
                        0 <= q < pre.len() && q != k as int implies (#[trigger] pre[q]).0
                        != client_id by {
                        if q < k as int {
                            assert(pre[q].0 != pre[k as int].0);
                        } else {
                            assert(pre[k as int].0 != pre[q].0);
                        }
                    }
                    assert forall|i: int, j: int|
                        0 <= i < j < self.clients@.len() implies self.clients@[i].0
                        != self.clients@[j].0 by {
                        if i != k as int && j != k as int {
                            assert(pre[i].0 != pre[j].0);
                        }
                    }
                    assert(self.wf());
                }
            },
            None => {
                proof {
                    lemma_find_client_none(self.clients@, client_id, 0);
                }
                self.clients.push((client_id, state));
            },
        }
    }

    /// Removes a client's session: the entry with the id leaves, every
    /// other entry stays in order. An unknown id changes nothing.
    pub fn unregister_client(&mut self, client_id: u128)
        requires
            old(self).wf(),
        ensures
            final(self).wf(),
            final(self).spec_message_count() == old(self).spec_message_count(),
            find_client(old(self).spec_clients(), client_id, 0) is None ==> *final(self) == *old(self),
            find_client(old(self).spec_clients(), client_id, 0) matches Some(k) ==> final(self).spec_clients() == old(self).spec_clients().remove(k),
    {
        let n: usize = self.clients.len();
        let mut i: usize = 0;
        let mut at: Option<usize> = None;
        while i < n
            invariant
                i <= n,
                n == self.clients@.len(),
                *self == *old(self),
                at matches Some(k) ==> find_client(self.clients@, client_id, 0) == Some(k as int)
                    && (k as int) < n && self.clients@[k as int].0 == client_id,
                at is None ==> find_client(self.clients@, client_id, 0) == find_client(
                    self.clients@,
                    client_id,
                    i as int,
                ),
            decreases n - i,
        {
            if at.is_none() && self.clients[i].0 == client_id {
                proof {
                    assert(find_client(self.clients@, client_id, i as int) == Some(i as int));
                }
                at = Some(i);
            } else {
                proof {
                    if at is None {
                        assert(find_client(self.clients@, client_id, i as int) == find_client(
                            self.clients@,
                            client_id,
                            i + 1,
                        ));
                    }
                }
            }
            i += 1;
        }
        proof {
            if at is None {
                assert(find_client(self.clients@, client_id, n as int) is None);
            }
        }
        if let Some(k) = at {
            let _ = self.clients.remove(k);
        }
    }

    /// The number of connected clients.
    pub fn client_count(&self) -> (r: usize)
        ensures
            r == self.spec_clients().len(),
    {
        self.clients.len()
    }

    /// Whether a client is connected.
    pub fn is_client_connected(&self, client_id: u128) -> (r: bool)
        ensures
            r == (find_client(self.spec_clients(), client_id, 0) is Some),
    {
        let n: usize = self.clients.len();
        let mut i: usize = 0;
        while i < n
            invariant
                i <= n,
                n == self.clients@.len(),
                find_client(self.clients@, client_id, 0) == find_client(
                    self.clients@,
                    client_id,
                    i as int,
                ),
            decreases n - i,
        {
            if self.clients[i].0 == client_id {
                proof {
                    assert(find_client(self.clients@, client_id, i as int) == Some(i as int));
                }
                return true;
            }
            proof {
                assert(find_client(self.clients@, client_id, i as int) == find_client(
                    self.clients@,
                    client_id,
                    i + 1,
                ));
            }
            i += 1;
        }
        false
    }

    /// All connected client ids, in registration order.
    pub fn client_ids(&self) -> (r: Vec<u128>)
        ensures
            r@.len() == self.spec_clients().len(),
            forall|i: int| 0 <= i < r@.len() ==> (#[trigger] r@[i]) == self.spec_clients()[i].0,
    {
        let n: usize = self.clients.len();
        let mut out: Vec<u128> = Vec::new();
        let mut i: usize = 0;
        while i < n
            invariant
                i <= n,
                n == self.clients@.len(),
                out@.len() == i,
                forall|k: int| 0 <= k < i ==> (#[trigger] out@[k]) == self.clients@[k].0,
            decreases n - i,
        {
            out.push(self.clients[i].0);
            i += 1;
        }
        out
    }

    /// Replaces a client's subscription filter with the given one;
    /// `None` means all drones. An unknown id changes nothing.
    pub fn subscribe(&mut self, client_id: u128, drone_ids: Option<Vec<DroneId>>)
        requires
            old(self).wf(),
        ensures
            final(self).wf(),
            final(self).spec_message_count() == old(self).spec_message_count(),
            find_client(old(self).spec_clients(), client_id, 0) is None ==> *final(self) == *old(self),
            find_client(old(self).spec_clients(), client_id, 0) matches Some(k) ==> {
                &&& final(self).spec_clients().len() == old(self).spec_clients().len()
                &&& (forall|q: int|
                    0 <= q < old(self).spec_clients().len() && q != k
                        ==> final(self).spec_clients()[q] == old(self).spec_clients()[q])
                &&& final(self).spec_clients()[k].0 == old(self).spec_clients()[k].0
                &&& final(self).spec_clients()[k].1.subscriptions == drone_ids
                &&& final(self).spec_clients()[k].1.connected_at_ms == old(self).spec_clients()[k].1.connected_at_ms
            },
    {
        let n: usize = self.clients.len();
        let mut i: usize = 0;
        let mut at: Option<usize> = None;
        while i < n
            invariant
                i <= n,
                n == self.clients@.len(),
                *self == *old(self),
                at matches Some(k) ==> find_client(self.clients@, client_id, 0) == Some(k as int)
                    && (k as int) < n && self.clients@[k as int].0 == client_id,
                at is None ==> find_client(self.clients@, client_id, 0) == find_client(
                    self.clients@,
                    client_id,
                    i as int,
                ),
            decreases n - i,
        {
            if at.is_none() && self.clients[i].0 == client_id {
                proof {
                    assert(find_client(self.clients@, client_id, i as int) == Some(i as int));
                }
                at = Some(i);
            } else {
                proof {
                    if at is None {
                        assert(find_client(self.clients@, client_id, i as int) == find_client(
                            self.clients@,
                            client_id,
                            i + 1,
                        ));
                    }
                }
            }
            i += 1;
        }
        proof {
            if at is None {
                assert(find_client(self.clients@, client_id, n as int) is None);
            }
        }
        if let Some(k) = at {
            let ghost pre = self.clients@;
            let id_here: u128 = self.clients[k].0;
            let slot = &mut self.clients[k];
            *slot = (id_here, ClientState { subscriptions: drone_ids, connected_at_ms: slot.1.connected_at_ms });
            proof {
                assert(self.clients@[k as int].0 == pre[k as int].0);
                assert(forall|q: int|
                    0 <= q < self.clients@.len() && q != k as int ==> self.clients@[q] == pre[q]);
            }
        }
    }

    /// Removes the listed ids from a client's filter, or clears the
    /// filter to an empty set when no list is given; removing from an
    /// all-drones session leaves it unfiltered. An unknown id changes
    /// nothing.
    pub fn unsubscribe(&mut self, client_id: u128, drone_ids: Option<Vec<DroneId>>)
        requires
            old(self).wf(),
        ensures
            final(self).wf(),
            final(self).spec_message_count() == old(self).spec_message_count(),
            find_client(old(self).spec_clients(), client_id, 0) is None ==> *final(self) == *old(self),
            find_client(old(self).spec_clients(), client_id, 0) matches Some(k) ==> {
                &&& final(self).spec_clients().len() == old(self).spec_clients().len()
                &&& (forall|q: int|
                    0 <= q < old(self).spec_clients().len() && q != k
                        ==> final(self).spec_clients()[q] == old(self).spec_clients()[q])
                &&& final(self).spec_clients()[k].0 == old(self).spec_clients()[k].0
                &&& final(self).spec_clients()[k].1.connected_at_ms == old(self).spec_clients()[k].1.connected_at_ms
                &&& (drone_ids is None ==> (final(self).spec_clients()[k].1.subscriptions matches
                    Some(s) && s@.len() == 0))
                &&& (drone_ids matches Some(ids) ==> (match old(self).spec_clients()[k].1.subscriptions {
                    Option::<Vec<DroneId>>::None => final(self).spec_clients()[k].1.subscriptions is None,
                    Option::<Vec<DroneId>>::Some(subs) => (final(self).spec_clients()[k].1.subscriptions matches Some(ns) && ns@.map_values(
                        |d: DroneId| d.0@,
                    ) == spec_remove_ids(subs@, ids@)),
                }))
            },
    {
        let n: usize = self.clients.len();
        let mut i: usize = 0;
        let mut at: Option<usize> = None;
        while i < n
            invariant
                i <= n,
                n == self.clients@.len(),
                *self == *old(self),
                at matches Some(k) ==> find_client(self.clients@, client_id, 0) == Some(k as int)
                    && (k as int) < n && self.clients@[k as int].0 == client_id,
                at is None ==> find_client(self.clients@, client_id, 0) == find_client(
                    self.clients@,
                    client_id,
                    i as int,
                ),
            decreases n - i,
        {
            if at.is_none() && self.clients[i].0 == client_id {
                proof {
                    assert(find_client(self.clients@, client_id, i as int) == Some(i as int));
                }
                at = Some(i);
            } else {
                proof {
                    if at is None {
                        assert(find_client(self.clients@, client_id, i as int) == find_client(
                            self.clients@,
                            client_id,
                            i + 1,
                        ));
                    }
                }
            }
            i += 1;
        }
        let k: usize = match at {
            Some(k) => k,
            None => {
                proof {
                    assert(find_client(self.clients@, client_id, n as int) is None);
                }
                return ;
            },
        };
        let ghost pre = self.clients@;
        let new_subs: Option<Vec<DroneId>> = match drone_ids {
            None => Some(Vec::new()),
            Some(ids) => {
                match &self.clients[k].1.subscriptions {
                    Some(subs) => Some(remove_ids(subs, &ids)),
                    None => None,
                }
            },
        };
        let id_here: u128 = self.clients[k].0;
        let at_here: i64 = self.clients[k].1.connected_at_ms;
        let slot = &mut self.clients[k];
        *slot = (id_here, ClientState { subscriptions: new_subs, connected_at_ms: at_here });
        proof {
            assert(self.clients@[k as int].0 == pre[k as int].0);
            assert(forall|q: int|
                0 <= q < self.clients@.len() && q != k as int ==> self.clients@[q] == pre[q]);
        }
    }

    /// Whether an event passes a client's filter: with no filter every
    /// event passes; with a filter, events about a listed drone pass,
    /// and events about no particular drone pass too.
    pub fn should_forward(state: &ClientState, event: &Event) -> (r: bool)
        ensures
            state.subscriptions is None ==> r,
            r == spec_forward(*state, *event),
    {
        let subs: &Vec<DroneId> = match &state.subscriptions {
            None => {
                return true;
            },
            Some(s) => s,
        };
        let target: &DroneId = match &event.payload {
            EventPayload::DronePosition(p) => &p.drone_id,
            EventPayload::DroneStatus(p) => &p.drone_id,
            EventPayload::DroneTelemetry(p) => &p.drone_id,
            EventPayload::DroneConnection(p) => &p.drone_id,
            EventPayload::Waypoint(p) => &p.drone_id,
            _ => {
                return true;
            },
        };
        proof {
            assert(spec_event_drone_id(*event) == Some(target.0@));
        }
        let n: usize = subs.len();
        let mut i: usize = 0;
        while i < n
            invariant
                i <= n,
                n == subs@.len(),
                spec_event_drone_id(*event) == Some(target.0@),
                state.subscriptions matches Some(sv) && sv@ == subs@,
                forall|q: int| 0 <= q < i ==> (#[trigger] subs@[q]).0@ != target.0@,
            decreases n - i,
        {
            if subs[i].0 == target.0 {
                proof {
                    assert(0 <= i as int && (i as int) < subs@.len() && subs@[i as int].0@
                        == target.0@);
                    assert(exists|q: int|
                        0 <= q < subs@.len() && (#[trigger] subs@[q]).0@ == target.0@);
                }
                return true;
            }
            i += 1;
        }
        false
    }

    /// Whether the hub forwards an event to a client: by the client's
    /// filter, or unfiltered for an id the hub does not know.
    pub fn forwards(&self, client_id: u128, event: &Event) -> (r: bool)
        ensures
            find_client(self.spec_clients(), client_id, 0) is None ==> r,
            find_client(self.spec_clients(), client_id, 0) matches Some(k) ==> r == spec_forward(
                self.spec_clients()[k].1,
                *event,
            ),
    {
        let n: usize = self.clients.len();
        let mut i: usize = 0;
        while i < n
            invariant
                i <= n,
                n == self.clients@.len(),
                find_client(self.clients@, client_id, 0) == find_client(
                    self.clients@,
                    client_id,
                    i as int,
                ),
            decreases n - i,
        {
            if self.clients[i].0 == client_id {
                proof {
                    assert(find_client(self.clients@, client_id, i as int) == Some(i as int));
                }
                return Self::should_forward(&self.clients[i].1, event);
            }
            proof {
                assert(find_client(self.clients@, client_id, i as int) == find_client(
                    self.clients@,
                    client_id,
                    i + 1,
                ));
            }
            i += 1;
        }
        true
    }

    /// The hub's decision for one inbound message.
    pub fn handle_client_message(&mut self, msg: ClientMessage) -> (r: HubAction)
        requires
            old(self).wf(),
        ensures
            final(self).wf(),
            (msg is Subscribe) <==> (r is SetSubscriptions),
            (msg is Unsubscribe) <==> (r is RemoveSubscriptions),
            (msg is RequestState) <==> (r is AcknowledgeStateRequest),
            (msg is DroneCommand) <==> (r is Dispatch),
            (msg is Pong) <==> (r is Heartbeat),
            msg matches ClientMessage::Subscribe { drone_ids } ==> r
                == HubAction::SetSubscriptions(drone_ids),
            msg matches ClientMessage::Unsubscribe { drone_ids } ==> r
                == HubAction::RemoveSubscriptions(drone_ids),
            msg matches ClientMessage::DroneCommand(cmd) ==> r == HubAction::Dispatch(cmd),
            msg matches ClientMessage::Pong { timestamp } ==> r == HubAction::Heartbeat(timestamp),
            final(self).spec_clients() == old(self).spec_clients(),
    {
        self.message_count = if self.message_count < u64::MAX {
            self.message_count + 1
        } else {
            self.message_count
        };
        match msg {
            ClientMessage::Subscribe { drone_ids } => HubAction::SetSubscriptions(drone_ids),
            ClientMessage::Unsubscribe { drone_ids } => HubAction::RemoveSubscriptions(drone_ids),
            ClientMessage::RequestState => HubAction::AcknowledgeStateRequest,
            ClientMessage::DroneCommand(cmd) => HubAction::Dispatch(cmd),
            ClientMessage::Pong { timestamp } => HubAction::Heartbeat(timestamp),
        }
    }

    /// The handshake message: a full state snapshot. This is the first
    /// frame a new subscriber is sent.
    pub fn initial_state_message(
        drones: Vec<Drone>,
        mission: Option<Mission>,
        tracking_results: Vec<TrackingResult>,
    ) -> (r: ServerMessage)
        ensures
            r matches ServerMessage::InitialState(s) && s.drones == drones && s.mission == mission
                && s.tracking_results == tracking_results,
    {
        ServerMessage::InitialState(FullStateEvent { drones, mission, tracking_results })
    }

    /// The number of inbound messages handled.
    pub fn message_count(&self) -> (r: u64)
        ensures
            r as int == self.spec_message_count(),
    {
        self.message_count
    }
}

impl Default for WebSocketHub {
    fn default() -> (r: WebSocketHub)
        ensures
            r.wf(),
            r.spec_clients().len() == 0,
    {
        WebSocketHub::new()
    }
}

/// The subset of `subs` whose ids are not listed in `remove`, in order.
fn remove_ids(subs: &Vec<DroneId>, remove: &Vec<DroneId>) -> (r: Vec<DroneId>)
    ensures
        r@.map_values(|d: DroneId| d.0@) == spec_remove_ids(subs@, remove@),
{
    let n: usize = subs.len();
    let m: usize = remove.len();
    let mut out: Vec<DroneId> = Vec::new();
    let mut i: usize = 0;
    while i < n
        invariant
            i <= n,
            n == subs@.len(),
            m == remove@.len(),
            out@.map_values(|d: DroneId| d.0@) == spec_remove_ids(subs@.take(i as int), remove@),
        decreases n - i,
    {
        let mut listed: bool = false;
        let mut j: usize = 0;
        while j < m
            invariant
                j <= m,
                i < n,
                n == subs@.len(),
                m == remove@.len(),
                listed == (exists|q: int|
                    0 <= q < j && (#[trigger] remove@[q]).0@ == subs@[i as int].0@),
            decreases m - j,
        {
            if remove[j].0 == subs[i].0 {
                listed = true;
            }
            j += 1;
        }
        proof {
            assert(listed == id_listed(remove@, subs@[i as int].0@));
        }
        let ghost pre = out@;
        if !listed {
            out.push(DroneId::from_string(subs[i].0.clone()));
            proof {
                assert(out@.map_values(|d: DroneId| d.0@) =~= pre.map_values(
                    |d: DroneId| d.0@,
                ).push(subs@[i as int].0@));
            }
        }
        proof {
            assert(subs@.take(i + 1 as int).drop_last() =~= subs@.take(i as int));
            assert(subs@.take(i + 1 as int).last() == subs@[i as int]);
        }
        i += 1;
    }
    proof {
        assert(subs@.take(n as int) =~= subs@);
    }
    out
}

} // verus!
