//! Connection identity, client identity, the per-client session state, and
//! the session registry: a concurrent map from live connections to their
//! sessions, shared by every connection handler.

use vstd::prelude::*;
use dashmap::DashMap;
use crate::errors::RegistryError;
use crate::libs::types::{ClientId, TopicId};

verus! {

/// The identity of one live transport connection: the peer's address and
/// port. The address is carried as its 128-bit numeric form, wide enough
/// for either address family.
#[derive(PartialEq, Eq, Structural, Hash, Copy, Clone, Debug)]
pub struct ConnectionId {
    pub ip_src: u128,
    pub port_src: u16,
}

impl ConnectionId {
    pub fn new(ip_src: u128, port_src: u16) -> (id: ConnectionId)
        ensures
            id.ip_src == ip_src,
            id.port_src == port_src,
    {
        ConnectionId { ip_src, port_src }
    }
}

/// One inbound unit of work: the connection a datagram came from and the
/// undecoded bytes of that one datagram.
#[derive(Clone, Debug)]
pub struct Packet {
    pub source: ConnectionId,
    pub datagram: Vec<u8>,
}

/// The mathematical image of a packet, with the buffer as a sequence.
pub struct PacketView {
    pub source: ConnectionId,
    pub datagram: Seq<u8>,
}

impl View for Packet {
    type V = PacketView;

    open spec fn view(&self) -> PacketView {
        PacketView { source: self.source, datagram: self.datagram@ }
    }
}

impl Packet {
    pub fn new(source: ConnectionId, datagram: Vec<u8>) -> (packet: Packet)
        ensures
            packet.source == source,
            packet.datagram == datagram,
    {
        Packet { source, datagram }
    }
}

/// The state of one client's session: its broker-assigned identity, the
/// connection it lives on, the topics it subscribed to, and when it was
/// last heard from. The send handle to the transport stays with the
/// transport layer, keyed by the same identities.
#[derive(Clone, Debug)]
pub struct ClientSession {
    pub id: ClientId,
    pub connection_id: ConnectionId,
    pub topics: Vec<TopicId>,
    pub last_seen: u64,
}

/// The mathematical image of a session, with the topic list as a sequence.
pub struct SessionView {
    pub id: ClientId,
    pub connection_id: ConnectionId,
    pub topics: Seq<TopicId>,
    pub last_seen: u64,
}

impl View for ClientSession {
    type V = SessionView;

    open spec fn view(&self) -> SessionView {
        SessionView {
            id: self.id,
            connection_id: self.connection_id,
            topics: self.topics@,
            last_seen: self.last_seen,
        }
    }
}

impl ClientSession {
    /// A fresh session: no subscriptions yet, last heard from at creation.
    pub fn new(id: ClientId, connection_id: ConnectionId, created_at: u64) -> (session:
        ClientSession)
        ensures
            session.id == id,
            session.connection_id == connection_id,
            session.topics@ == Seq::<TopicId>::empty(),
            session.last_seen == created_at,
    {
        ClientSession { id, connection_id, topics: Vec::new(), last_seen: created_at }
    }
}

/// Relies on std::time::SystemTime: the nanoseconds from the UNIX epoch to
/// now, truncated to 64 bits, or zero on a clock that reads earlier than
/// the epoch. The result depends on the clock, so nothing is promised of
/// it.
#[verifier::external_body]
fn now_nanos() -> u64 {
    std::time::SystemTime::now()
        .duration_since(std::time::UNIX_EPOCH)
        .map_or(0, |elapsed| elapsed.as_nanos() as u64)
}

/// Relies on rand::random: one draw from the thread's generator. The
/// result is random, so nothing is promised of it.
#[verifier::external_body]
fn random_u64() -> u64 {
    rand::random::<u64>()
}

/// The client identity that a clock reading and a draw of entropy combine
/// to: their bitwise XOR.
pub fn client_id_from_parts(time_ns: u64, entropy: u64) -> (id: ClientId)
    ensures
        id == time_ns ^ entropy,
{
    time_ns ^ entropy
}

/// A fresh client identity: the time now, in nanoseconds, combined with a
/// fresh random value. Practically unique, not guaranteed unique: a caller
/// that needs a hard guarantee must check against the live registry.
pub fn new_client_id() -> ClientId {
    client_id_from_parts(now_nanos(), random_u64())
}

#[verifier::external_type_specification]
#[verifier::external_body]
#[verifier::reject_recursive_types(K)]
#[verifier::reject_recursive_types(V)]
#[verifier::reject_recursive_types(S)]
pub struct ExDashMap<K, V, S>(DashMap<K, V, S>);

/// What a session map holds: the image of each live session, keyed by its
/// connection. Named so that the registry's contracts can speak of the
/// map's contents.
pub uninterp spec fn registry_contents(m: DashMap<ConnectionId, ClientSession>) -> Map<
    ConnectionId,
    SessionView,
>;

/// Relies on dashmap::DashMap::new: a fresh map holds nothing.
#[verifier::external_body]
fn session_map_new() -> (fresh: DashMap<ConnectionId, ClientSession>)
    ensures
        (registry_contents(fresh) == Map::<ConnectionId, SessionView>::empty()),
{
    DashMap::new()
}

/// Relies on dashmap::DashMap::insert: the value is stored under the key,
/// and the value previously under it — if any — is returned.
#[verifier::external_body]
fn session_map_insert(
    m: &mut DashMap<ConnectionId, ClientSession>,
    key: ConnectionId,
    value: ClientSession,
) -> (previous: Option<ClientSession>)
    ensures
        registry_contents(*final(m)) == registry_contents(*old(m)).insert(key, value@),
        previous is Some <==> registry_contents(*old(m)).contains_key(key),
        previous matches Some(session) ==> session@ == registry_contents(*old(m))[key],
{
    m.insert(key, value)
}

/// Relies on dashmap::DashMap::get: the value under the key, if any,
/// cloned out of the map's shared reference.
#[verifier::external_body]
fn session_map_get(m: &DashMap<ConnectionId, ClientSession>, key: &ConnectionId) -> (value: Option<
    ClientSession,
>)
    ensures
        value is Some <==> registry_contents(*m).contains_key(*key),
        value matches Some(session) ==> session@ == registry_contents(*m)[*key],
{
    m.get(key).map(|entry| entry.value().clone())
}

/// Relies on dashmap::DashMap::contains_key.
#[verifier::external_body]
fn session_map_contains(m: &DashMap<ConnectionId, ClientSession>, key: &ConnectionId) -> (present:
    bool)
    ensures
        present == registry_contents(*m).contains_key(*key),
{
    m.contains_key(key)
}

/// Relies on dashmap::DashMap::remove: the entry under the key leaves the
/// map and its value is returned, if one was there.
#[verifier::external_body]
fn session_map_remove(m: &mut DashMap<ConnectionId, ClientSession>, key: &ConnectionId) -> (removed:
    Option<ClientSession>)
    ensures
        registry_contents(*final(m)) == registry_contents(*old(m)).remove(*key),
        removed is Some <==> registry_contents(*old(m)).contains_key(*key),
        removed matches Some(session) ==> session@ == registry_contents(*old(m))[*key],
{
    m.remove(key).map(|entry| entry.1)
}

/// Relies on dashmap::DashMap::len: how many entries the map holds; a real
/// map always holds finitely many.
#[verifier::external_body]
fn session_map_len(m: &DashMap<ConnectionId, ClientSession>) -> (count: usize)
    ensures
        count == registry_contents(*m).dom().len(),
{
    m.len()
}

/// The session registry: the one concurrent map from connection identity
/// to live session state, read and written by independent connection
/// tasks. Built on a sharded map so that unrelated connections do not
/// serialize each other.
pub struct SessionRegistry {
    sessions: DashMap<ConnectionId, ClientSession>,
}

impl View for SessionRegistry {
    type V = Map<ConnectionId, SessionView>;

    closed spec fn view(&self) -> Map<ConnectionId, SessionView> {
        registry_contents(self.sessions)
    }
}

impl SessionRegistry {
    /// A fresh registry holds no sessions.
    pub fn new() -> (registry: SessionRegistry)
        ensures
            registry@ == Map::<ConnectionId, SessionView>::empty(),
    {
        SessionRegistry { sessions: session_map_new() }
    }

    /// How many sessions are registered.
    pub fn len(&self) -> (count: usize)
        ensures
            count == self@.dom().len(),
    {
        session_map_len(&self.sessions)
    }

    /// Registers a session under its connection identity. A connection
    /// maps to at most one session at a time: if one is already there, the
    /// old connection must be torn down first, and nothing changes.
    pub fn insert(&mut self, session: ClientSession) -> (out: Result<(), RegistryError>)
        ensures
            old(self)@.contains_key(session.connection_id) ==> out == Err::<(), RegistryError>(
                RegistryError::DuplicateConnection,
            ) && final(self)@ == old(self)@,
            !old(self)@.contains_key(session.connection_id) ==> out == Ok::<(), RegistryError>(())
                && final(self)@ == old(self)@.insert(session.connection_id, session@),
    {
        if session_map_contains(&self.sessions, &session.connection_id) {
            return Err(RegistryError::DuplicateConnection);
        }
        let _previous = session_map_insert(&mut self.sessions, session.connection_id, session);
        Ok(())
    }

    /// The session of a connection, if the connection is registered: a
    /// cheap shared-read lookup that hands out a copy of the state.
    pub fn get(&self, connection_id: &ConnectionId) -> (out: Option<ClientSession>)
        ensures
            out is Some <==> self@.contains_key(*connection_id),
            out matches Some(session) ==> session@ == self@[*connection_id],
    {
        session_map_get(&self.sessions, connection_id)
    }

    /// Whether a connection is registered.
    pub fn contains(&self, connection_id: &ConnectionId) -> (present: bool)
        ensures
            present == self@.contains_key(*connection_id),
    {
        session_map_contains(&self.sessions, connection_id)
    }

    /// Unregisters a connection and hands back its session, if it was
    /// registered. Cleaning the session's subscriptions out of the
    /// subscription index is the broker's step, done with the session this
    /// returns.
    pub fn remove(&mut self, connection_id: &ConnectionId) -> (out: Option<ClientSession>)
        ensures
            final(self)@ == old(self)@.remove(*connection_id),
            out is Some <==> old(self)@.contains_key(*connection_id),
            out matches Some(session) ==> session@ == old(self)@[*connection_id],
    {
        session_map_remove(&mut self.sessions, connection_id)
    }

    /// Stores a session back under its connection identity, replacing what
    /// is there: how a worker writes an updated session state.
    pub fn update(&mut self, session: ClientSession)
        ensures
            final(self)@ == old(self)@.insert(session.connection_id, session@),
    {
        let _previous = session_map_insert(&mut self.sessions, session.connection_id, session);
    }
}

} // verus!
