//! The state that the discovery manager shares with the services of this node.
//!
//! The manager connects the user-defined services with the network through
//! mDNS. It keeps, per service name, the metadata that the node advertises,
//! the peers it discovered and the peers it was told about. A service that
//! shuts down sends its name on a bounded channel; the manager then forgets
//! the service everywhere and advertises again.

use std::collections::{HashMap, HashSet};
use std::sync::Arc;

use libp2p::PeerId;
use tokio::sync::mpsc::{Receiver, Sender};
use tokio::sync::Notify;
use vstd::hash_map::StringHashMap;
use vstd::prelude::*;

verus! {

/// The identifier of a libp2p peer, carried through unread.
#[verifier::external_type_specification]
#[verifier::external_body]
pub struct ExPeerId(PeerId);

/// A tokio notifier, used to wake the manager for a rebroadcast; carried through unread.
#[verifier::external_type_specification]
#[verifier::external_body]
pub struct ExNotify(Notify);

/// The sending half of a bounded tokio channel, carried through unread.
#[verifier::external_type_specification]
#[verifier::external_body]
#[verifier::reject_recursive_types(T)]
pub struct ExSender<T>(Sender<T>);

/// The receiving half of a bounded tokio channel, carried through unread.
#[verifier::external_type_specification]
#[verifier::external_body]
#[verifier::reject_recursive_types(T)]
pub struct ExReceiver<T>(Receiver<T>);

/// The bound that the sending half of a bounded channel of service names was
/// made with: what `tokio::sync::mpsc::Sender::max_capacity` returns.
pub uninterp spec fn sender_bound(sender: Sender<String>) -> usize;

/// The bound that the receiving half of a bounded channel of service names was
/// made with: what `tokio::sync::mpsc::Receiver::max_capacity` returns.
pub uninterp spec fn receiver_bound(receiver: Receiver<String>) -> usize;

/// Calls `tokio::sync::mpsc::channel` for a channel of service names.
///
/// The source asserts that the buffer is positive and no larger than the
/// semaphore's limit (`usize::MAX >> 3`), so both are required. It stores the
/// buffer as the channel's bound, which `max_capacity` of either half returns;
/// that is stated. That the two halves belong to the same channel is not
/// stated: it is an identity, not a value.
#[verifier::external_body]
fn bounded_name_channel(buffer: usize) -> (r: (Sender<String>, Receiver<String>))
    requires
        0 < buffer <= usize::MAX / 8,
    ensures
        sender_bound(r.0) == buffer,
        receiver_bound(r.1) == buffer,
{
    tokio::sync::mpsc::channel(buffer)
}

/// How many shut-down service names can wait in the channel before a
/// service's shutdown has to wait for the manager.
pub const SERVICE_SHUTDOWN_CAPACITY: usize = 10;

/// The public key that identifies a remote node.
#[derive(Debug, Clone, Copy, PartialEq, Eq, Hash)]
pub struct RemoteIdentity {
    /// The key's bytes.
    pub key: [u8; 32],
}

/// A socket address of a discovered peer.
#[derive(Debug, Clone, Copy, PartialEq, Eq)]
pub enum PeerAddress {
    /// An IPv4 address and port.
    V4 { ip: [u8; 4], port: u16 },
    /// An IPv6 address, port, flow information and scope.
    V6 { ip: [u8; 16], port: u16, flowinfo: u32, scope_id: u32 },
}

/// A peer found by a discovery protocol, before a connection is made.
pub struct DiscoveredPeerCandidate {
    /// The libp2p identifier of the peer.
    pub peer_id: PeerId,
    /// The metadata the peer advertises for the service.
    pub meta: HashMap<String, String>,
    /// The addresses the peer can be reached at.
    pub addresses: Vec<PeerAddress>,
}

/// What the discovery manager shares with the services of this node.
///
/// `S` is what the node keeps per advertised service (its metadata and the
/// handle that reaches the service).
#[verifier::reject_recursive_types(S)]
pub struct DiscoveryManagerState<S> {
    /// The services the current node is advertising, with their metadata.
    pub services: StringHashMap<S>,
    /// The peers organically discovered, per service.
    pub discovered: StringHashMap<HashMap<RemoteIdentity, DiscoveredPeerCandidate>>,
    /// The peers this node knows about, per service. These may be connected or
    /// not available. A peer is not removed from here when it is discovered.
    pub known: StringHashMap<HashSet<RemoteIdentity>>,
    /// Used to trigger a rebroadcast; notify it after mutating this state.
    pub do_broadcast: Arc<Notify>,
    /// Used by a service to ask for its own removal when it shuts down.
    pub service_shutdown_tx: Sender<String>,
}

/// What wakes the discovery manager up.
pub enum PollEvent {
    /// Some service asked for its records to be broadcast again.
    BroadcastRequested,
    /// The shutdown channel yielded a service name, or `None` once every
    /// sender is gone.
    ServiceShutdown(Option<String>),
    /// The mDNS service made progress on its own.
    MdnsProgressed,
}

/// What the discovery manager does after handling a wake-up.
#[derive(Debug, Clone, Copy, PartialEq, Eq)]
pub enum PollAction {
    /// Have every discovery provider advertise the current service records.
    Advertise,
    /// Nothing more to do.
    Idle,
}

/// What the manager does after `event`: advertise again after a broadcast
/// request or a shutdown message, where mDNS is running; nothing otherwise.
pub open spec fn poll_action(mdns_running: bool, event: PollEvent) -> PollAction {
    if mdns_running && !(event is MdnsProgressed) {
        PollAction::Advertise
    } else {
        PollAction::Idle
    }
}

impl PollEvent {
    /// Whether handling this event changes the shared tables: only a shutdown
    /// message that carries a service name does.
    pub fn touches_state(&self) -> (r: bool)
        ensures
            r == (*self matches PollEvent::ServiceShutdown(Some(_))),
    {
        match self {
            PollEvent::ServiceShutdown(Some(_)) => true,
            _ => false,
        }
    }

    /// What the manager does after this event.
    pub fn action(&self, mdns_running: bool) -> (r: PollAction)
        ensures
            r == poll_action(mdns_running, *self),
    {
        match self {
            PollEvent::MdnsProgressed => PollAction::Idle,
            _ => if mdns_running {
                PollAction::Advertise
            } else {
                PollAction::Idle
            },
        }
    }
}

impl<S> DiscoveryManagerState<S> {
    /// The services, discovered peers and known peers, each keyed by service name.
    pub open spec fn tables(self) -> (
        Map<Seq<char>, S>,
        Map<Seq<char>, HashMap<RemoteIdentity, DiscoveredPeerCandidate>>,
        Map<Seq<char>, HashSet<RemoteIdentity>>,
    ) {
        (self.services@, self.discovered@, self.known@)
    }

    /// The state with every table holding nothing under `name`.
    pub open spec fn without_service(self, name: Seq<char>) -> (
        Map<Seq<char>, S>,
        Map<Seq<char>, HashMap<RemoteIdentity, DiscoveredPeerCandidate>>,
        Map<Seq<char>, HashSet<RemoteIdentity>>,
    ) {
        (self.services@.remove(name), self.discovered@.remove(name), self.known@.remove(name))
    }

    /// The tables after the manager handled `event`: a shutdown message with a
    /// name removes that service everywhere; anything else changes nothing.
    pub open spec fn after_poll_event(self, event: PollEvent) -> (
        Map<Seq<char>, S>,
        Map<Seq<char>, HashMap<RemoteIdentity, DiscoveredPeerCandidate>>,
        Map<Seq<char>, HashSet<RemoteIdentity>>,
    ) {
        match event {
            PollEvent::ServiceShutdown(Some(name)) => self.without_service(name@),
            _ => self.tables(),
        }
    }

    /// Creates an empty state and the channel on which services announce
    /// their shutdown; the receiving half goes to the discovery manager.
    pub fn new() -> (r: (Self, Receiver<String>))
        ensures
            r.0.services@ == Map::<Seq<char>, S>::empty(),
            r.0.discovered@ == Map::<Seq<char>, HashMap<RemoteIdentity, DiscoveredPeerCandidate>>::empty(),
            r.0.known@ == Map::<Seq<char>, HashSet<RemoteIdentity>>::empty(),
            sender_bound(r.0.service_shutdown_tx) == SERVICE_SHUTDOWN_CAPACITY,
            receiver_bound(r.1) == SERVICE_SHUTDOWN_CAPACITY,
    {
        let (service_shutdown_tx, service_shutdown_rx) = bounded_name_channel(
            SERVICE_SHUTDOWN_CAPACITY,
        );
        let state = DiscoveryManagerState {
            services: StringHashMap::new(),
            discovered: StringHashMap::new(),
            known: StringHashMap::new(),
            do_broadcast: <Arc<Notify> as Default>::default(),
            service_shutdown_tx,
        };
        (state, service_shutdown_rx)
    }

    /// Forgets the service `name`: it is no longer advertised, and its
    /// discovered and known peers are dropped. Other services are untouched.
    pub fn remove_service(&mut self, name: &str)
        ensures
            final(self).tables() == old(self).without_service(name@),
            final(self).do_broadcast == old(self).do_broadcast,
            final(self).service_shutdown_tx == old(self).service_shutdown_tx,
    {
        self.services.remove(name);
        self.discovered.remove(name);
        self.known.remove(name);
    }

    /// Handles one wake-up of the discovery manager.
    ///
    /// A service name from the shutdown channel removes that service from
    /// every table. After a broadcast request or a shutdown message the
    /// records are advertised again, where mDNS is running (`mdns_running`);
    /// progress of mDNS itself needs nothing more.
    pub fn handle_poll_event(&mut self, mdns_running: bool, event: PollEvent) -> (r: PollAction)
        ensures
            final(self).tables() == old(self).after_poll_event(event),
            (match event {
                PollEvent::ServiceShutdown(Some(n)) => {
                    &&& final(self).services@ == old(self).services@.remove(n@)
                    &&& final(self).discovered@ == old(self).discovered@.remove(n@)
                    &&& final(self).known@ == old(self).known@.remove(n@)
                },
                _ => {
                    &&& final(self).services@ == old(self).services@
                    &&& final(self).discovered@ == old(self).discovered@
                    &&& final(self).known@ == old(self).known@
                },
            }),
            final(self).do_broadcast == old(self).do_broadcast,
            final(self).service_shutdown_tx == old(self).service_shutdown_tx,
            r == poll_action(mdns_running, event),
    {
        let action = event.action(mdns_running);
        if let PollEvent::ServiceShutdown(Some(name)) = event {
            self.remove_service(name.as_str());
        }
        action
    }
}

/// A service that shut down is forgotten everywhere and nothing else is: its
/// name is in none of the tables afterwards, every other service keeps its
/// entries, and forgetting it a second time changes nothing.
pub proof fn shutdown_forgets_only_that_service<S>(state: DiscoveryManagerState<S>, name: Seq<char>, other: Seq<char>)
    requires
        other != name,
    ensures
        !state.without_service(name).0.contains_key(name),
        !state.without_service(name).1.contains_key(name),
        !state.without_service(name).2.contains_key(name),
        state.without_service(name).0.contains_key(other) == state.services@.contains_key(other),
        state.without_service(name).1.contains_key(other) == state.discovered@.contains_key(other),
        state.without_service(name).2.contains_key(other) == state.known@.contains_key(other),
        state.without_service(name).0.contains_key(other) ==> state.without_service(name).0[other] == state.services@[other],
        state.without_service(name).1.contains_key(other) ==> state.without_service(name).1[other] == state.discovered@[other],
        state.without_service(name).2.contains_key(other) ==> state.without_service(name).2[other] == state.known@[other],
        state.without_service(name).0.remove(name) == state.without_service(name).0,
        state.without_service(name).1.remove(name) == state.without_service(name).1,
        state.without_service(name).2.remove(name) == state.without_service(name).2,
{
    assert(state.without_service(name).0.remove(name) =~= state.without_service(name).0);
    assert(state.without_service(name).1.remove(name) =~= state.without_service(name).1);
    assert(state.without_service(name).2.remove(name) =~= state.without_service(name).2);
}

/// Every change that a wake-up makes to the shared tables is followed by a
/// new advertisement while mDNS runs, and only a shutdown message that names a
/// service changes them.
pub proof fn changes_are_advertised<S>(state: DiscoveryManagerState<S>, event: PollEvent)
    ensures
        state.after_poll_event(event) != state.tables() ==> (event matches PollEvent::ServiceShutdown(Some(_))),
        state.after_poll_event(event) != state.tables() ==> poll_action(true, event) == PollAction::Advertise,
{
}

/// A wake-up that carries a shutdown message for `name` leaves nothing under
/// `name` in any table, and every other service name keeps exactly the
/// entries it had in each table.
pub proof fn shutdown_wake_up_forgets_only_that_service<S>(
    state: DiscoveryManagerState<S>,
    name: String,
    other: Seq<char>,
)
    requires
        other != name@,
    ensures
        !state.after_poll_event(PollEvent::ServiceShutdown(Some(name))).0.contains_key(name@),
        !state.after_poll_event(PollEvent::ServiceShutdown(Some(name))).1.contains_key(name@),
        !state.after_poll_event(PollEvent::ServiceShutdown(Some(name))).2.contains_key(name@),
        state.after_poll_event(PollEvent::ServiceShutdown(Some(name))).0.contains_key(other)
            == state.services@.contains_key(other),
        state.after_poll_event(PollEvent::ServiceShutdown(Some(name))).1.contains_key(other)
            == state.discovered@.contains_key(other),
        state.after_poll_event(PollEvent::ServiceShutdown(Some(name))).2.contains_key(other)
            == state.known@.contains_key(other),
        state.services@.contains_key(other) ==> state.after_poll_event(
            PollEvent::ServiceShutdown(Some(name)),
        ).0[other] == state.services@[other],
        state.discovered@.contains_key(other) ==> state.after_poll_event(
            PollEvent::ServiceShutdown(Some(name)),
        ).1[other] == state.discovered@[other],
        state.known@.contains_key(other) ==> state.after_poll_event(
            PollEvent::ServiceShutdown(Some(name)),
        ).2[other] == state.known@[other],
{
}

/// Without mDNS nothing is advertised; progress of mDNS alone never leads
/// to an advertisement; while mDNS runs, a broadcast request or any shutdown
/// message (with or without a name) does.
pub proof fn advertising_needs_mdns_and_a_request(mdns_running: bool, event: PollEvent)
    ensures
        !mdns_running ==> poll_action(mdns_running, event) == PollAction::Idle,
        event is MdnsProgressed ==> poll_action(mdns_running, event) == PollAction::Idle,
        mdns_running && (event is BroadcastRequested || event is ServiceShutdown) ==> poll_action(
            mdns_running,
            event,
        ) == PollAction::Advertise,
{
}

} // verus!
