//! The subscription index: the reverse mapping from each topic to the set
//! of clients subscribed to it, and from each object — a named grouping —
//! to its set of topics. Mutated only by topic and object requests; read by
//! the fan-out step of data dispatch.

use vstd::prelude::*;
use std::collections::HashMap;
use crate::enums::object_request_action::ObjectRequestAction;
use crate::enums::topic_action::TopicAction;
use crate::enums::topic_response::TopicResponse;
use crate::libs::types::{ClientId, ObjectId, TopicId};
use crate::libs::utils::{clone_bytes, clone_ids, contains_id, diff_hashsets, remove_id};

verus! {

broadcast use {
    vstd::std_specs::hash::group_hash_axioms,
    Seq::<_>::lemma_push_to_set_commute,
    Seq::<_>::lemma_take_succ_push,
    Seq::<_>::lemma_index_contains,
    Seq::<_>::lemma_take_len,
};

/// Membership in a filtered sequence: a value stands in the filtered
/// sequence exactly when it stands in the original and satisfies the
/// predicate.
pub proof fn lemma_filter_membership<A>(s: Seq<A>, pred: spec_fn(A) -> bool, x: A)
    ensures
        s.filter(pred).contains(x) <==> s.contains(x) && pred(x),
    decreases s.len(),
{
    reveal_with_fuel(Seq::<_>::filter, 2);
    if s.len() > 0 {
        lemma_filter_membership(s.drop_last(), pred, x);
        assert(s.contains(x) <==> s.drop_last().contains(x) || s.last() == x) by {
            if s.contains(x) {
                let i = choose|i: int| 0 <= i < s.len() && #[trigger] s[i] == x;
                if i < s.len() - 1 {
                    assert(s.drop_last()[i] == x);
                }
            }
            if s.drop_last().contains(x) {
                let i = choose|i: int|
                    0 <= i < s.drop_last().len() && #[trigger] s.drop_last()[i] == x;
                assert(s[i] == x);
            }
            if s.last() == x {
                assert(s[s.len() - 1] == x);
            }
        }
        if s.drop_last().filter(pred).contains(x) {
            assert(s.filter(pred).contains(x)) by {
                let i = choose|i: int|
                    0 <= i < s.drop_last().filter(pred).len() && s.drop_last().filter(pred)[i]
                        == x;
                assert(s.filter(pred)[i] == x);
            }
        }
        if s.filter(pred).contains(x) {
            let i = choose|i: int| 0 <= i < s.filter(pred).len() && s.filter(pred)[i] == x;
            if pred(s.last()) && i == s.filter(pred).len() - 1 {
                assert(s.last() == x);
            } else {
                assert(s.drop_last().filter(pred)[i] == x);
                assert(s.drop_last().filter(pred).contains(x));
            }
        }
    }
}

/// What one topic action does to one topic's subscriber set, and the
/// response it earns: a subscribe the client already holds and an
/// unsubscribe of a topic it never subscribed to both fail and change
/// nothing; the unknown action changes nothing and answers `Unknown`.
pub open spec fn spec_apply_topic(subs: Set<ClientId>, client: ClientId, action: TopicAction) -> (
    Set<ClientId>,
    TopicResponse,
) {
    match action {
        TopicAction::Subscribe => {
            if subs.contains(client) {
                (subs, TopicResponse::SubFailure)
            } else {
                (subs.insert(client), TopicResponse::SubSuccess)
            }
        },
        TopicAction::Unsubscribe => {
            if subs.contains(client) {
                (subs.remove(client), TopicResponse::UnsubSuccess)
            } else {
                (subs, TopicResponse::UnsubFailure)
            }
        },
        TopicAction::Unknown => (subs, TopicResponse::Unknown),
    }
}

/// Law: `spec_apply_topic` detects repeated actions. Subscribing twice to
/// the same client and topic fails the second time; unsubscribing a pair
/// that is not subscribed — in particular right after an unsubscribe —
/// fails too, and a failed action leaves the subscriber set as it was.
pub proof fn lemma_topic_action_idempotent_detection(
    subs: Set<ClientId>,
    client: ClientId,
)
    ensures
        spec_apply_topic(
            spec_apply_topic(subs, client, TopicAction::Subscribe).0,
            client,
            TopicAction::Subscribe,
        ).1 == TopicResponse::SubFailure,
        spec_apply_topic(
            spec_apply_topic(subs, client, TopicAction::Subscribe).0,
            client,
            TopicAction::Subscribe,
        ).0 == spec_apply_topic(subs, client, TopicAction::Subscribe).0,
        !subs.contains(client) ==> spec_apply_topic(subs, client, TopicAction::Unsubscribe)
            == (subs, TopicResponse::UnsubFailure),
        spec_apply_topic(
            spec_apply_topic(subs, client, TopicAction::Unsubscribe).0,
            client,
            TopicAction::Unsubscribe,
        ).1 == TopicResponse::UnsubFailure,
{
    assert(spec_apply_topic(subs, client, TopicAction::Subscribe).0.contains(client));
    assert(!spec_apply_topic(subs, client, TopicAction::Unsubscribe).0.contains(client));
}

/// The reverse mappings the broker routes by. One index is shared by all
/// workers; every operation keeps its well-formedness.
pub struct SubscriptionIndex {
    topics: HashMap<TopicId, Vec<ClientId>>,
    topic_list: Vec<TopicId>,
    objects: HashMap<ObjectId, Vec<TopicId>>,
}

impl SubscriptionIndex {
    /// The set of clients subscribed to a topic.
    pub closed spec fn subscribers(self, topic: TopicId) -> Set<ClientId> {
        if self.topics@.contains_key(topic) {
            self.topics@[topic]@.to_set()
        } else {
            Set::empty()
        }
    }

    /// The set of topics grouped under an object.
    pub closed spec fn object_topics(self, object: ObjectId) -> Set<TopicId> {
        if self.objects@.contains_key(object) {
            self.objects@[object]@.to_set()
        } else {
            Set::empty()
        }
    }

    /// Well-formedness: the topic key list mirrors the map's domain without
    /// repetition, and no subscriber list repeats a client.
    pub closed spec fn wf(self) -> bool {
        &&& self.topic_list@.no_duplicates()
        &&& self.topic_list@.to_set() == self.topics@.dom()
        &&& forall|t: TopicId|
            self.topics@.contains_key(t) ==> (#[trigger] self.topics@[t])@.no_duplicates()
    }

    /// A fresh index: no subscribers on any topic, no topics in any object.
    pub fn new() -> (index: SubscriptionIndex)
        ensures
            index.wf(),
            forall|t: TopicId| index.subscribers(t) == Set::<ClientId>::empty(),
            forall|o: ObjectId| index.object_topics(o) == Set::<TopicId>::empty(),
    {
        let index = SubscriptionIndex {
            topics: HashMap::new(),
            topic_list: Vec::new(),
            objects: HashMap::new(),
        };
        proof {
            assert(index.topic_list@.to_set() =~= index.topics@.dom());
        }
        index
    }

    /// Adds or removes one client on one topic's subscriber set, answering
    /// exactly as `spec_apply_topic` says: a repeated subscribe or an
    /// unsubscribe of an unsubscribed pair fails and changes nothing. No
    /// other topic and no object grouping is touched.
    pub fn apply_topic_action(&mut self, client: ClientId, topic: TopicId, action: TopicAction) -> (
        response: TopicResponse)
        requires
            old(self).wf(),
        ensures
            final(self).wf(),
            (final(self).subscribers(topic), response) == spec_apply_topic(
                old(self).subscribers(topic),
                client,
                action,
            ),
            forall|t: TopicId|
                t != topic ==> final(self).subscribers(t) == old(self).subscribers(t),
            forall|o: ObjectId| final(self).object_topics(o) == old(self).object_topics(o),
    {
        match action {
            TopicAction::Subscribe => {
                let current: Vec<ClientId> = match self.topics.get(&topic) {
                    Some(subs) => subs.clone(),
                    None => Vec::new(),
                };
                if contains_id(&current, client) {
                    return TopicResponse::SubFailure;
                }
                let was_known = self.topics.contains_key(&topic);
                if !was_known {
                    self.topic_list.push(topic);
                }
                let mut updated = current;
                updated.push(client);
                self.topics.insert(topic, updated);
                proof {
                    assert(self.topic_list@.to_set() =~= self.topics@.dom());
                    assert(final(self).subscribers(topic) =~= old(self).subscribers(topic).insert(
                        client,
                    ));
                }
                TopicResponse::SubSuccess
            },
            TopicAction::Unsubscribe => {
                let current: Vec<ClientId> = match self.topics.get(&topic) {
                    Some(subs) => subs.clone(),
                    None => {
                        // Nobody subscribes to this topic, so this client
                        // does not either.
                        return TopicResponse::UnsubFailure;
                    },
                };
                if !contains_id(&current, client) {
                    return TopicResponse::UnsubFailure;
                }
                let updated = remove_id(&current, client);
                self.topics.insert(topic, updated);
                proof {
                    assert(self.topic_list@.to_set() =~= self.topics@.dom());
                    assert(final(self).subscribers(topic) =~= old(self).subscribers(topic).remove(
                        client,
                    ));
                }
                TopicResponse::UnsubSuccess
            },
            TopicAction::Unknown => TopicResponse::Unknown,
        }
    }

    /// Rewrites one object's topic grouping from the candidate set and
    /// hands back the two deltas: the candidates that were not grouped yet,
    /// and the grouped topics the candidates no longer name — what an
    /// object acknowledgement is built from. Create and update set the
    /// grouping to the candidates; delete empties it; the other actions
    /// only compute the deltas. No subscriber set is touched.
    pub fn apply_object_action(
        &mut self,
        object: ObjectId,
        action: ObjectRequestAction,
        candidate_topics: &Vec<TopicId>,
    ) -> (deltas: (Vec<TopicId>, Vec<TopicId>))
        requires
            old(self).wf(),
        ensures
            final(self).wf(),
            deltas.0@.to_set() == candidate_topics@.to_set().difference(
                old(self).object_topics(object),
            ),
            deltas.1@.to_set() == old(self).object_topics(object).difference(
                candidate_topics@.to_set(),
            ),
            final(self).object_topics(object) == match action {
                ObjectRequestAction::Create => candidate_topics@.to_set(),
                ObjectRequestAction::Update => candidate_topics@.to_set(),
                ObjectRequestAction::Delete => Set::<TopicId>::empty(),
                _ => old(self).object_topics(object),
            },
            forall|o: ObjectId|
                o != object ==> final(self).object_topics(o) == old(self).object_topics(o),
            forall|t: TopicId| final(self).subscribers(t) == old(self).subscribers(t),
    {
        let current: Vec<TopicId> = match self.objects.get(&object) {
            Some(topics) => topics.clone(),
            None => Vec::new(),
        };
        proof {
            assert(current@.to_set() =~= old(self).object_topics(object));
        }
        let deltas = diff_hashsets(candidate_topics, &current);
        proof {
            let in_new = |t: TopicId| !current@.contains(t);
            let in_current = |t: TopicId| !candidate_topics@.contains(t);
            assert forall|t: TopicId| #[trigger]
                deltas.0@.to_set().contains(t) == candidate_topics@.to_set().difference(
                    current@.to_set(),
                ).contains(t) by {
                lemma_filter_membership(candidate_topics@, in_new, t);
            }
            assert forall|t: TopicId| #[trigger]
                deltas.1@.to_set().contains(t) == current@.to_set().difference(
                    candidate_topics@.to_set(),
                ).contains(t) by {
                lemma_filter_membership(current@, in_current, t);
            }
            assert(deltas.0@.to_set() =~= candidate_topics@.to_set().difference(
                current@.to_set(),
            ));
            assert(deltas.1@.to_set() =~= current@.to_set().difference(
                candidate_topics@.to_set(),
            ));
        }
        match action {
            ObjectRequestAction::Create | ObjectRequestAction::Update => {
                self.objects.insert(object, clone_ids(candidate_topics));
            },
            ObjectRequestAction::Delete => {
                self.objects.remove(&object);
                proof {
                    assert(final(self).object_topics(object) =~= Set::<TopicId>::empty());
                }
            },
            _ => {},
        }
        deltas
    }

    /// Removes a client from every topic's subscriber set: the cleanup
    /// that keeps the index free of sessions that no longer exist. After
    /// the call the client subscribes to no topic at all.
    pub fn remove_client(&mut self, client: ClientId)
        requires
            old(self).wf(),
        ensures
            final(self).wf(),
            forall|t: TopicId|
                final(self).subscribers(t) == old(self).subscribers(t).remove(client),
            forall|t: TopicId| !final(self).subscribers(t).contains(client),
            forall|o: ObjectId| final(self).object_topics(o) == old(self).object_topics(o),
    {
        let total = self.topic_list.len();
        let mut i: usize = 0;
        while i < total
            invariant
                old(self).wf(),
                self.wf(),
                total == self.topic_list@.len(),
                i <= total,
                self.topic_list == old(self).topic_list,
                self.objects == old(self).objects,
                forall|t: TopicId|
                    self.topic_list@.take(i as int).contains(t) ==> #[trigger] self.subscribers(t)
                        == old(self).subscribers(t).remove(client),
                forall|t: TopicId|
                    !self.topic_list@.take(i as int).contains(t) ==> #[trigger] self.subscribers(t)
                        == old(self).subscribers(t),
            decreases total - i,
        {
            let topic = self.topic_list[i];
            proof {
                assert(!self.topic_list@.take(i as int).contains(topic)) by {
                    if self.topic_list@.take(i as int).contains(topic) {
                        let j = choose|j: int|
                            0 <= j < i && #[trigger] self.topic_list@.take(i as int)[j] == topic;
                        assert(self.topic_list@[j] == self.topic_list@[i as int]);
                    }
                }
            }
            let current: Vec<ClientId> = match self.topics.get(&topic) {
                Some(subs) => subs.clone(),
                None => Vec::new(),
            };
            let ghost mid = *self;
            let updated = remove_id(&current, client);
            self.topics.insert(topic, updated);
            proof {
                assert(self.topic_list@.to_set() =~= self.topics@.dom());
                assert(self.topic_list@.take(i + 1)[i as int] == self.topic_list@[i as int]);
                assert(self.topic_list@.take(i + 1).contains(self.topic_list@[i as int]));
                assert(current@.to_set() == mid.subscribers(topic)) by {
                    assert(current@.to_set() =~= mid.subscribers(topic));
                }
                assert(self.subscribers(topic) =~= old(self).subscribers(topic).remove(client));
                assert forall|t: TopicId| self.topic_list@.take(i + 1).contains(t) implies (
                #[trigger] self.subscribers(t)) == old(self).subscribers(t).remove(client) by {
                    if t != topic {
                        assert(self.topic_list@.take(i as int).contains(t)) by {
                            let j = choose|j: int|
                                0 <= j < i + 1 && #[trigger] self.topic_list@.take(i + 1)[j] == t;
                            assert(self.topic_list@.take(i as int)[j] == t);
                        }
                        assert(self.subscribers(t) == mid.subscribers(t));
                        assert(mid.subscribers(t) == old(self).subscribers(t).remove(client));
                    }
                }
                assert forall|t: TopicId| !self.topic_list@.take(i + 1).contains(t) implies (
                #[trigger] self.subscribers(t)) == old(self).subscribers(t) by {
                    assert(t != topic);
                    assert(!self.topic_list@.take(i as int).contains(t)) by {
                        if self.topic_list@.take(i as int).contains(t) {
                            let j = choose|j: int|
                                0 <= j < i && #[trigger] self.topic_list@.take(i as int)[j] == t;
                            assert(self.topic_list@.take(i + 1)[j] == t);
                        }
                    }
                    assert(self.subscribers(t) == mid.subscribers(t));
                    assert(mid.subscribers(t) == old(self).subscribers(t));
                }
            }
            i = i + 1;
        }
        proof {
            assert(self.topic_list@.take(total as int) == self.topic_list@);
            assert forall|t: TopicId| (#[trigger] self.subscribers(t)) == old(self).subscribers(
                t,
            ).remove(client) by {
                if !self.topic_list@.contains(t) {
                    assert(!self.topics@.dom().contains(t));
                    assert(!old(self).topics@.dom().contains(t));
                    assert(old(self).subscribers(t).remove(client) =~= Set::<ClientId>::empty());
                }
            }
        }
    }

    /// One outbound item per subscriber of a topic: each carries the same
    /// payload, every subscriber appears exactly once, and nothing beyond
    /// the subscriber set decides how many items come out. The order items
    /// come out in is not promised: a set has none.
    pub fn fan_out(&self, topic: TopicId, payload: &Vec<u8>) -> (out: Vec<(ClientId, Vec<u8>)>)
        requires
            self.wf(),
        ensures
            out@.len() == self.subscribers(topic).len(),
            forall|i: int| 0 <= i < out@.len() ==> (#[trigger] out@[i].1)@ == payload@,
            forall|i: int|
                0 <= i < out@.len() ==> self.subscribers(topic).contains(#[trigger] out@[i].0),
            forall|i: int, j: int| 0 <= i < j < out@.len() ==> out@[i].0 != out@[j].0,
            forall|id: ClientId|
                self.subscribers(topic).contains(id) ==> exists|i: int|
                    0 <= i < out@.len() && (#[trigger] out@[i].0) == id,
    {
        let subscribers: Vec<ClientId> = match self.topics.get(&topic) {
            Some(subs) => subs.clone(),
            None => Vec::new(),
        };
        proof {
            assert(subscribers@.to_set() =~= self.subscribers(topic));
            subscribers@.unique_seq_to_set();
        }
        let mut out: Vec<(ClientId, Vec<u8>)> = Vec::new();
        let mut i: usize = 0;
        while i < subscribers.len()
            invariant
                i <= subscribers@.len(),
                out@.len() == i,
                forall|j: int| 0 <= j < i ==> (#[trigger] out@[j].0) == subscribers@[j],
                forall|j: int| 0 <= j < i ==> (#[trigger] out@[j].1)@ == payload@,
            decreases subscribers@.len() - i,
        {
            let copy: Vec<u8> = clone_bytes(payload);
            out.push((subscribers[i], copy));
            i = i + 1;
        }
        proof {
            assert forall|j: int, k: int| 0 <= j < k < out@.len() implies out@[j].0 != out@[k].0 by {
                assert(subscribers@[j] != subscribers@[k]);
            }
            assert forall|id: ClientId| self.subscribers(topic).contains(id) implies exists|j: int|
                0 <= j < out@.len() && (#[trigger] out@[j].0) == id by {
                assert(subscribers@.contains(id));
                let j = choose|j: int| 0 <= j < subscribers@.len() && subscribers@[j] == id;
                assert(out@[j].0 == id);
            }
            assert forall|j: int| 0 <= j < out@.len() implies self.subscribers(topic).contains(
                #[trigger] out@[j].0,
            ) by {
                assert(subscribers@.contains(subscribers@[j]));
            }
        }
        out
    }
}

} // verus!
