//! The broker state and the dispatch step: one packet in, broker state
//! updated, outbound messages out. Workers of the dispatch pipeline call
//! the step against the one shared state.

use vstd::prelude::*;
use vstd::bytes::{spec_u16_to_le_bytes, spec_u32_to_le_bytes, spec_u64_to_le_bytes};
use crate::codec::{decode, spec_decode, Datagram, DatagramView};
use crate::datagrams::connect_requests::DtgConnectAck;
use crate::datagrams::data_request::DtgData;
use crate::datagrams::latency_requests::DtgPong;
use crate::datagrams::miscellaneous_requests::DtgServerStatusACK;
use crate::datagrams::object_requests::DtgObjectRequestACK;
use crate::datagrams::topic_request::DtgTopicRequestAck;
use crate::enums::datagram_type::{spec_type_code, DatagramType};
use crate::enums::object_request_action::{spec_object_action_code, ObjectRequestAction};
use crate::enums::topic_response::{spec_topic_response_code, TopicResponse};
use crate::errors::RegistryError;
use crate::libs::types::{ClientId, ObjectId, PingId, TopicId};
use crate::libs::utils::{clone_bytes, contains_id, remove_id};
use crate::session::{
    new_client_id, ClientSession, ConnectionId, Packet, SessionRegistry, SessionView,
};
use crate::subscription::{spec_apply_topic, SubscriptionIndex};

verus! {

broadcast use Seq::<_>::lemma_push_to_set_commute;

/// One message the dispatch step wants written: the client to deliver to,
/// and the bytes to send. Writing is the transport's work, done outside
/// with the send handle registered for that client.
pub struct Outbound {
    pub client_id: ClientId,
    pub bytes: Vec<u8>,
}

/// The client identities with a registered session.
pub open spec fn registered_ids(registry: Map<ConnectionId, SessionView>) -> Set<ClientId> {
    Set::new(
        |id: ClientId|
            exists|c: ConnectionId|
                #[trigger] registry.dom().contains(c) && registry[c].id == id,
    )
}

/// The bytes of the acknowledgement answering a topic request.
pub open spec fn spec_topic_ack_bytes(topic_id: TopicId, response: TopicResponse) -> Seq<u8> {
    seq![
        spec_type_code(DatagramType::TopicRequestAck),
        spec_topic_response_code(response),
    ] + spec_u64_to_le_bytes(topic_id)
}

/// The bytes of the acknowledgement answering an object request: the
/// action's flag bit, the object named by the request, and — under the
/// create bit — the object identity the broker settled on.
pub open spec fn spec_object_ack_bytes(action: ObjectRequestAction, object_id: ObjectId) -> Seq<
    u8,
> {
    seq![spec_type_code(DatagramType::ObjectRequestAck), spec_object_action_code(action)]
        + spec_u64_to_le_bytes(object_id) + spec_u64_to_le_bytes(
        if action is Create {
            object_id
        } else {
            0
        },
    )
}

/// The bytes of the pong answering a ping.
pub open spec fn spec_pong_bytes(ping_id: PingId) -> Seq<u8> {
    seq![spec_type_code(DatagramType::Pong), ping_id]
}

/// The bytes of the status answer carrying the connected client count.
pub open spec fn spec_status_ack_bytes(count: u64) -> Seq<u8> {
    seq![spec_type_code(DatagramType::ServerStatusAck)] + spec_u64_to_le_bytes(count)
}

/// The bytes of the connect acknowledgement assigning a client identity.
pub open spec fn spec_connect_ack_bytes(client_id: ClientId, heartbeat_period: u16) -> Seq<u8> {
    seq![spec_type_code(DatagramType::ConnectAck)] + spec_u64_to_le_bytes(client_id)
        + spec_u16_to_le_bytes(heartbeat_period)
}

/// The bytes of the data datagram forwarded to each subscriber.
pub open spec fn spec_data_bytes(sequence_number: u32, topic_id: TopicId, payload: Seq<u8>) -> Seq<
    u8,
> {
    seq![spec_type_code(DatagramType::Data)] + spec_u16_to_le_bytes(payload.len() as u16)
        + spec_u32_to_le_bytes(sequence_number) + spec_u64_to_le_bytes(topic_id) + payload
}

/// The broker's shared state: the session registry and the subscription
/// index, with the heartbeat period it promises new clients.
pub struct Broker {
    pub registry: SessionRegistry,
    pub index: SubscriptionIndex,
    pub heartbeat_period: u16,
}

impl Broker {
    /// Well-formedness: the index is well formed; every session stands in
    /// the registry under its own connection; and every client in any
    /// topic's subscriber set has a registered session — stale sessions
    /// are cleaned out of the index the moment they leave the registry.
    pub open spec fn wf(self) -> bool {
        &&& self.index.wf()
        &&& forall|c: ConnectionId|
            #[trigger] self.registry@.dom().contains(c) ==> self.registry@[c].connection_id == c
        &&& forall|t: TopicId, id: ClientId|
            #[trigger] self.index.subscribers(t).contains(id) ==> registered_ids(
                self.registry@,
            ).contains(id)
    }

    /// A fresh broker: nobody registered, nobody subscribed.
    pub fn new(heartbeat_period: u16) -> (broker: Broker)
        ensures
            broker.wf(),
            broker.registry@ == Map::<ConnectionId, SessionView>::empty(),
            forall|t: TopicId| broker.index.subscribers(t) == Set::<ClientId>::empty(),
            forall|o: ObjectId| broker.index.object_topics(o) == Set::<TopicId>::empty(),
            broker.heartbeat_period == heartbeat_period,
    {
        Broker {
            registry: SessionRegistry::new(),
            index: SubscriptionIndex::new(),
            heartbeat_period,
        }
    }

    /// Registers a fresh session for a connection whose handshake just
    /// completed, and hands back the assigned client identity with the
    /// encoded connect acknowledgement to send. Fails, changing nothing,
    /// only when the connection already has a session: the old one must be
    /// torn down first.
    pub fn register_connection(&mut self, connection_id: ConnectionId, now: u64) -> (out: Result<
        (ClientId, Vec<u8>),
        RegistryError,
    >)
        requires
            old(self).wf(),
        ensures
            final(self).wf(),
            final(self).heartbeat_period == old(self).heartbeat_period,
            final(self).index == old(self).index,
            old(self).registry@.contains_key(connection_id) ==> out == Err::<
                (ClientId, Vec<u8>),
                RegistryError,
            >(RegistryError::DuplicateConnection) && final(self).registry@ == old(self).registry@,
            !old(self).registry@.contains_key(connection_id) ==> (out matches Ok((client_id, bytes))
                && final(self).registry@ == old(self).registry@.insert(
                connection_id,
                SessionView {
                    id: client_id,
                    connection_id,
                    topics: Seq::<TopicId>::empty(),
                    last_seen: now,
                },
            ) && bytes@ == spec_connect_ack_bytes(client_id, old(self).heartbeat_period)),
    {
        let client_id = new_client_id();
        let session = ClientSession::new(client_id, connection_id, now);
        match self.registry.insert(session) {
            Err(e) => Err(e),
            Ok(()) => {
                let ack = DtgConnectAck::new(client_id, self.heartbeat_period);
                let bytes = ack.as_bytes();
                proof {
                    assert forall|t: TopicId, id: ClientId|
                        #[trigger] self.index.subscribers(t).contains(id) implies registered_ids(
                        self.registry@,
                    ).contains(id) by {
                        let c = choose|c: ConnectionId|
                            #[trigger] old(self).registry@.dom().contains(c) && old(
                                self,
                            ).registry@[c].id == id;
                        assert(self.registry@.dom().contains(c) && self.registry@[c].id == id);
                    }
                }
                Ok((client_id, bytes))
            },
        }
    }

    /// Tears one connection down: the session leaves the registry and its
    /// client identity leaves every topic's subscriber set — after the
    /// call the client subscribes to nothing. Fails, changing nothing, when
    /// the connection has no session.
    pub fn remove_session(&mut self, connection_id: &ConnectionId) -> (out: Result<
        (),
        RegistryError,
    >)
        requires
            old(self).wf(),
        ensures
            final(self).wf(),
            final(self).heartbeat_period == old(self).heartbeat_period,
            !old(self).registry@.contains_key(*connection_id) ==> out == Err::<(), RegistryError>(
                RegistryError::MissingSession,
            ) && final(self).registry@ == old(self).registry@ && final(self).index == old(
                self,
            ).index,
            old(self).registry@.contains_key(*connection_id) ==> (out == Ok::<(), RegistryError>(())
                && final(self).registry@ == old(self).registry@.remove(*connection_id) && (forall|
                t: TopicId,
            |
                final(self).index.subscribers(t) == old(self).index.subscribers(t).remove(
                    old(self).registry@[*connection_id].id,
                )) && (forall|t: TopicId|
                !final(self).index.subscribers(t).contains(
                    old(self).registry@[*connection_id].id,
                )) && (forall|o: ObjectId|
                final(self).index.object_topics(o) == old(self).index.object_topics(o))),
    {
        match self.registry.remove(connection_id) {
            None => {
                proof {
                    assert(self.registry@ =~= old(self).registry@);
                }
                Err(RegistryError::MissingSession)
            },
            Some(session) => {
                self.index.remove_client(session.id);
                proof {
                    let gone = old(self).registry@[*connection_id].id;
                    assert forall|t: TopicId, id: ClientId|
                        #[trigger] self.index.subscribers(t).contains(id) implies registered_ids(
                        self.registry@,
                    ).contains(id) by {
                        assert(old(self).index.subscribers(t).contains(id));
                        assert(id != gone);
                        let c = choose|c: ConnectionId|
                            #[trigger] old(self).registry@.dom().contains(c) && old(
                                self,
                            ).registry@[c].id == id;
                        assert(c != *connection_id);
                        assert(self.registry@.dom().contains(c) && self.registry@[c].id == id);
                    }
                }
                Ok(())
            },
        }
    }
}

/// Whether a dispatch step left the broker state as it found it.
pub open spec fn spec_dispatch_unchanged(pre: Broker, post: Broker) -> bool {
    &&& post.registry@ == pre.registry@
    &&& forall|t: TopicId| post.index.subscribers(t) == pre.index.subscribers(t)
    &&& forall|o: ObjectId| post.index.object_topics(o) == pre.index.object_topics(o)
}

/// A session's topic set after a topic request is answered: it grows or
/// shrinks only on the two success responses.
pub open spec fn spec_session_topics_after(
    topics: Set<TopicId>,
    topic: TopicId,
    response: TopicResponse,
) -> Set<TopicId> {
    match response {
        TopicResponse::SubSuccess => topics.insert(topic),
        TopicResponse::UnsubSuccess => topics.remove(topic),
        _ => topics,
    }
}

/// What dispatching one decoded datagram from a registered session does:
/// per variant, the state change and the outbound messages. Variants the
/// dispatch table does not handle change nothing and send nothing.
pub open spec fn spec_dispatch(
    pre: Broker,
    post: Broker,
    session: SessionView,
    view: DatagramView,
    now: u64,
    out: Seq<Outbound>,
) -> bool {
    match view {
        DatagramView::TopicRequest { datagram_type, flag, topic_id } => {
            let applied = spec_apply_topic(pre.index.subscribers(topic_id), session.id, flag);
            &&& post.index.subscribers(topic_id) == applied.0
            &&& forall|t: TopicId|
                t != topic_id ==> post.index.subscribers(t) == pre.index.subscribers(t)
            &&& forall|o: ObjectId| post.index.object_topics(o) == pre.index.object_topics(o)
            &&& exists|stored: Seq<TopicId>|
                (#[trigger] stored.to_set()) == spec_session_topics_after(
                    session.topics.to_set(),
                    topic_id,
                    applied.1,
                ) && post.registry@ == pre.registry@.insert(
                    session.connection_id,
                    SessionView {
                        id: session.id,
                        connection_id: session.connection_id,
                        topics: stored,
                        last_seen: session.last_seen,
                    },
                )
            &&& out.len() == 1
            &&& out[0].client_id == session.id
            &&& out[0].bytes@ == spec_topic_ack_bytes(topic_id, applied.1)
        },
        DatagramView::ObjectRequest { datagram_type, size, flag, object_id, payload } => {
            &&& post.registry@ == pre.registry@
            &&& forall|t: TopicId| post.index.subscribers(t) == pre.index.subscribers(t)
            &&& post.index.object_topics(object_id) == (match flag {
                ObjectRequestAction::Create => payload.to_set(),
                ObjectRequestAction::Update => payload.to_set(),
                ObjectRequestAction::Delete => Set::<TopicId>::empty(),
                _ => pre.index.object_topics(object_id),
            })
            &&& forall|o: ObjectId|
                o != object_id ==> post.index.object_topics(o) == pre.index.object_topics(o)
            &&& out.len() == 1
            &&& out[0].client_id == session.id
            &&& out[0].bytes@ == spec_object_ack_bytes(flag, object_id)
        },
        DatagramView::Data { datagram_type, size, sequence_number, topic_id, payload } => {
            &&& spec_dispatch_unchanged(pre, post)
            &&& out.len() == pre.index.subscribers(topic_id).len()
            &&& forall|i: int|
                0 <= i < out.len() ==> (#[trigger] out[i].bytes)@ == spec_data_bytes(
                    sequence_number,
                    topic_id,
                    payload,
                )
            &&& forall|i: int|
                0 <= i < out.len() ==> pre.index.subscribers(topic_id).contains(
                    #[trigger] out[i].client_id,
                )
            &&& forall|i: int, j: int| 0 <= i < j < out.len() ==> out[i].client_id != out[j].client_id
            &&& forall|id: ClientId|
                pre.index.subscribers(topic_id).contains(id) ==> exists|i: int|
                    0 <= i < out.len() && (#[trigger] out[i].client_id) == id
        },
        DatagramView::Ping { datagram_type, ping_id } => {
            &&& spec_dispatch_unchanged(pre, post)
            &&& out.len() == 1
            &&& out[0].client_id == session.id
            &&& out[0].bytes@ == spec_pong_bytes(ping_id)
        },
        DatagramView::Heartbeat { datagram_type } => {
            &&& forall|t: TopicId| post.index.subscribers(t) == pre.index.subscribers(t)
            &&& forall|o: ObjectId| post.index.object_topics(o) == pre.index.object_topics(o)
            &&& post.registry@ == pre.registry@.insert(
                session.connection_id,
                SessionView {
                    id: session.id,
                    connection_id: session.connection_id,
                    topics: session.topics,
                    last_seen: now,
                },
            )
            &&& out.len() == 0
        },
        DatagramView::ServerStatus { datagram_type } => {
            &&& spec_dispatch_unchanged(pre, post)
            &&& out.len() == 1
            &&& out[0].client_id == session.id
            &&& out[0].bytes@ == spec_status_ack_bytes(pre.registry@.dom().len() as u64)
        },
        _ => {
            &&& spec_dispatch_unchanged(pre, post)
            &&& out.len() == 0
        },
    }
}

impl Broker {
    /// Processes one packet from the dispatch queue: decode it, look the
    /// sender's session up, and dispatch by variant — topic and object
    /// requests mutate the index and earn an acknowledgement, data fans out
    /// to every subscriber, ping earns pong, heartbeat refreshes the
    /// session's last-seen time, a status enquiry earns the client count.
    /// A packet that does not decode, or whose connection raced a teardown
    /// and is gone from the registry, is discarded without effect.
    pub fn process_packet(&mut self, packet: &Packet, now: u64) -> (out: Vec<Outbound>)
        requires
            old(self).wf(),
        ensures
            final(self).wf(),
            final(self).heartbeat_period == old(self).heartbeat_period,
            spec_decode(packet.datagram@) is Err ==> spec_dispatch_unchanged(
                *old(self),
                *final(self),
            ) && out@.len() == 0,
            !old(self).registry@.contains_key(packet.source) ==> spec_dispatch_unchanged(
                *old(self),
                *final(self),
            ) && out@.len() == 0,
            (spec_decode(packet.datagram@) is Ok && old(self).registry@.contains_key(
                packet.source,
            )) ==> spec_dispatch(
                *old(self),
                *final(self),
                old(self).registry@[packet.source],
                spec_decode(packet.datagram@)->Ok_0,
                now,
                out@,
            ),
    {
        let datagram = match decode(packet.datagram.as_slice()) {
            Err(_) => {
                return Vec::new();
            },
            Ok(datagram) => datagram,
        };
        let session = match self.registry.get(&packet.source) {
            None => {
                return Vec::new();
            },
            Some(session) => session,
        };
        match datagram {
            Datagram::TopicRequest(request) => {
                let client_id = session.id;
                let response = self.index.apply_topic_action(
                    client_id,
                    request.topic_id,
                    request.flag,
                );
                let mut updated = session;
                match response {
                    TopicResponse::SubSuccess => {
                        if !contains_id(&updated.topics, request.topic_id) {
                            updated.topics.push(request.topic_id);
                        }
                        proof {
                            assert(updated.topics@.to_set() =~= old(self).registry@[
                                packet.source].topics.to_set().insert(request.topic_id));
                        }
                    },
                    TopicResponse::UnsubSuccess => {
                        updated.topics = remove_id(&updated.topics, request.topic_id);
                    },
                    _ => {},
                }
                let ghost stored = updated.topics@;
                self.registry.update(updated);
                proof {
                    let pre_session = old(self).registry@[packet.source];
                    assert(stored.to_set() == spec_session_topics_after(
                        pre_session.topics.to_set(),
                        request.topic_id,
                        response,
                    ));
                    assert(self.registry@ == old(self).registry@.insert(
                        pre_session.connection_id,
                        SessionView {
                            id: pre_session.id,
                            connection_id: pre_session.connection_id,
                            topics: stored,
                            last_seen: pre_session.last_seen,
                        },
                    ));
                }
                let ack = DtgTopicRequestAck::new(request.topic_id, response);
                let bytes = ack.as_bytes();
                let mut out: Vec<Outbound> = Vec::new();
                out.push(Outbound { client_id, bytes });
                proof {
                    self.lemma_wf_after_session_rewrite(
                        *old(self),
                        old(self).registry@[packet.source],
                    );
                }
                out
            },
            Datagram::ObjectRequest(request) => {
                // The wire acknowledgement has no room for the deltas; they
                // are for callers that apply object actions directly.
                let _deltas = self.index.apply_object_action(
                    request.object_id,
                    request.flag,
                    &request.payload,
                );
                let final_object_id = match request.flag {
                    ObjectRequestAction::Create => request.object_id,
                    _ => 0,
                };
                let ack = DtgObjectRequestACK::new(
                    u8::from(request.flag),
                    request.object_id,
                    final_object_id,
                );
                let bytes = ack.as_bytes();
                let mut out: Vec<Outbound> = Vec::new();
                out.push(Outbound { client_id: session.id, bytes });
                proof {
                    self.lemma_wf_after_index_preserving(*old(self));
                }
                out
            },
            Datagram::Data(data) => {
                let pairs = self.index.fan_out(data.topic_id, &data.payload);
                let mut out: Vec<Outbound> = Vec::new();
                let mut i: usize = 0;
                while i < pairs.len()
                    invariant
                        i <= pairs@.len(),
                        out@.len() == i,
                        data.valid(),
                        data.size == data.payload@.len(),
                        forall|j: int|
                            0 <= j < i ==> (#[trigger] out@[j].client_id) == pairs@[j].0,
                        forall|j: int|
                            0 <= j < i ==> (#[trigger] out@[j].bytes)@ == spec_data_bytes(
                                data.sequence_number,
                                data.topic_id,
                                data.payload@,
                            ),
                        forall|j: int|
                            0 <= j < pairs@.len() ==> (#[trigger] pairs@[j].1)@ == data.payload@,
                    decreases pairs@.len() - i,
                {
                    let pair = &pairs[i];
                    let client_id = pair.0;
                    let payload = clone_bytes(&pair.1);
                    proof {
                        assert(pairs@[i as int].1@ == data.payload@);
                    }
                    let forwarded = DtgData::new(data.sequence_number, data.topic_id, payload);
                    let bytes = forwarded.as_bytes();
                    out.push(Outbound { client_id, bytes });
                    i = i + 1;
                }
                proof {
                    assert forall|id: ClientId|
                        old(self).index.subscribers(data.topic_id).contains(id) implies exists|
                        j: int,
                    |
                        0 <= j < out@.len() && (#[trigger] out@[j].client_id) == id by {
                        let j = choose|j: int|
                            0 <= j < pairs@.len() && (#[trigger] pairs@[j].0) == id;
                        assert(out@[j].client_id == id);
                    }
                }
                out
            },
            Datagram::Ping(ping) => {
                let pong = DtgPong::new(ping.ping_id);
                let bytes = pong.as_bytes();
                let mut out: Vec<Outbound> = Vec::new();
                out.push(Outbound { client_id: session.id, bytes });
                out
            },
            Datagram::Heartbeat(_) => {
                let mut updated = session;
                updated.last_seen = now;
                self.registry.update(updated);
                proof {
                    self.lemma_wf_after_session_rewrite(
                        *old(self),
                        old(self).registry@[packet.source],
                    );
                }
                Vec::new()
            },
            Datagram::ServerStatus(_) => {
                let count = self.registry.len();
                let ack = DtgServerStatusACK::new(count as u64);
                let bytes = ack.as_bytes();
                let mut out: Vec<Outbound> = Vec::new();
                out.push(Outbound { client_id: session.id, bytes });
                out
            },
            _ => Vec::new(),
        }
    }

    /// After an operation that touched only the index's object groupings —
    /// no subscriber set, no session — the broker stays well formed.
    proof fn lemma_wf_after_index_preserving(self, pre: Broker)
        requires
            pre.wf(),
            self.registry@ == pre.registry@,
            self.index.wf(),
            forall|t: TopicId| self.index.subscribers(t) == pre.index.subscribers(t),
        ensures
            self.wf(),
    {
    }

    /// After a topic action for a registered session — or a rewrite of that
    /// session that keeps its identity — the broker stays well formed: the
    /// only client a subscriber set can gain is the session's own, and that
    /// one is registered.
    proof fn lemma_wf_after_session_rewrite(self, pre: Broker, session: SessionView)
        requires
            pre.wf(),
            pre.registry@.dom().contains(session.connection_id),
            pre.registry@[session.connection_id].id == session.id,
            self.index.wf(),
            forall|c: ConnectionId|
                #[trigger] self.registry@.dom().contains(c) <==> pre.registry@.dom().contains(c),
            forall|c: ConnectionId|
                #[trigger] self.registry@.dom().contains(c) ==> self.registry@[c].id
                    == pre.registry@[c].id && self.registry@[c].connection_id
                    == pre.registry@[c].connection_id,
            forall|t: TopicId|
                (#[trigger] self.index.subscribers(t)).subset_of(
                    pre.index.subscribers(t).insert(session.id),
                ),
        ensures
            self.wf(),
    {
        assert forall|t: TopicId, id: ClientId|
            #[trigger] self.index.subscribers(t).contains(id) implies registered_ids(
            self.registry@,
        ).contains(id) by {
            if id == session.id {
                assert(self.registry@.dom().contains(session.connection_id));
                assert(self.registry@[session.connection_id].id == id);
            } else {
                assert(pre.index.subscribers(t).contains(id));
                let c = choose|c: ConnectionId|
                    #[trigger] pre.registry@.dom().contains(c) && pre.registry@[c].id == id;
                assert(self.registry@.dom().contains(c));
                assert(self.registry@[c].id == id);
            }
        }
    }
}

} // verus!
