//! The consumer facade: cache queries, fetch fan-out planning, and
//! produce routing over the cluster client's state.

use vstd::prelude::*;
use crate::kafka_client::{contains_i32, topic_known, BrokerAddr, FetchPlanEntry, KafkaClient,
    PartitionMetadata, RouteError, TopicPartitions};

verus! {

/// This leader group lists the partition.
pub open spec fn group_has_partition(g: PartitionMetadata, p: i32) -> bool {
    exists|k: int| 0 <= k < g.partitions@.len() && (#[trigger] g.partitions@[k]) == p
}

/// The cache entry at `ti` routes `partition` through its group at `li`.
pub open spec fn partition_routed(cache: Seq<TopicPartitions>, name: Seq<u8>, p: i32) -> bool {
    exists|ti: int, li: int|
        #![auto]
        0 <= ti < cache.len() && cache[ti].topic@ == name && 0 <= li < cache[ti].leaders@.len()
            && group_has_partition(cache[ti].leaders@[li], p)
}

/// A consumer over a cluster client.
#[derive(Debug)]
pub struct ConsumerClient {
    pub kafka_client: KafkaClient,
}

impl ConsumerClient {
    /// A fresh consumer over `hosts`, with nothing discovered yet.
    pub fn new(hosts: Vec<Vec<u8>>) -> (r: Self)
        ensures
            r.kafka_client.hosts@ == hosts@,
            r.kafka_client.topics_metadata@ == Seq::<TopicPartitions>::empty(),
            r.kafka_client.correlation_id == 1,
            r.kafka_client.cache_wf(),
    {
        let mut client_id: Vec<u8> = Vec::new();
        client_id.push(99);
        client_id.push(111);
        client_id.push(110);
        client_id.push(115);
        client_id.push(117);
        client_id.push(109);
        client_id.push(101);
        client_id.push(114);
        client_id.push(45);
        client_id.push(99);
        client_id.push(108);
        client_id.push(105);
        client_id.push(101);
        client_id.push(110);
        client_id.push(116);
        Self { kafka_client: KafkaClient::new(hosts, client_id) }
    }

    /// Whether every one of the topics has cached metadata.  A call that
    /// routes by partition must refresh the cache first when this is
    /// false, that is, when any requested topic is absent.
    pub fn topics_metadata_in_cache(&self, topics: &Vec<Vec<u8>>) -> (r: bool)
        ensures
            r <==> forall|k: int|
                0 <= k < topics@.len() ==> topic_known(
                    self.kafka_client.topics_metadata@,
                    (#[trigger] topics@[k])@,
                ),
    {
        let mut k: usize = 0;
        while k < topics.len()
            invariant
                k <= topics@.len(),
                forall|m: int|
                    0 <= m < k ==> topic_known(
                        self.kafka_client.topics_metadata@,
                        (#[trigger] topics@[m])@,
                    ),
            decreases topics@.len() - k,
        {
            if !self.topic_metadata_in_cache(&topics[k]) {
                proof {
                    assert(!topic_known(
                        self.kafka_client.topics_metadata@,
                        (#[trigger] topics@[k as int])@,
                    ));
                }
                return false;
            }
            k = k + 1;
        }
        true
    }

    /// Whether this topic has cached metadata.
    pub fn topic_metadata_in_cache(&self, topic: &Vec<u8>) -> (r: bool)
        ensures
            r == topic_known(self.kafka_client.topics_metadata@, topic@),
    {
        match self.kafka_client.lookup_topic(topic) {
            Option::Some(_) => true,
            Option::None => false,
        }
    }

    /// Plans a fetch fan-out over the cached metadata: exactly one
    /// request per (topic, leader) pair of the requested topics whose
    /// partition list is non-empty; see `KafkaClient::plan_fetch`.
    pub fn fetch_plan(&self, topics: &Vec<Vec<u8>>) -> (r: Result<Vec<FetchPlanEntry>, RouteError>)
        requires
            self.kafka_client.cache_wf(),
            forall|k: int| 0 <= k < topics@.len() ==> (#[trigger] topics@[k])@.len() <= i16::MAX,
        ensures
            r is Ok <==> forall|k: int|
                0 <= k < topics@.len() ==> topic_known(
                    self.kafka_client.topics_metadata@,
                    (#[trigger] topics@[k])@,
                ),
            r matches Result::Err(e) ==> e == RouteError::NoRouteForTopic,
            r matches Result::Ok(plan) ==> {
                &&& forall|e: int|
                    0 <= e < plan@.len() ==> crate::kafka_client::plan_entry_valid(
                        self.kafka_client.topics_metadata@,
                        self.kafka_client.brokers@,
                        #[trigger] plan@[e],
                    )
                &&& forall|e: int|
                    0 <= e < plan@.len() ==> crate::kafka_client::requested_has(
                        topics@,
                        topics@.len() as int,
                        (#[trigger] plan@[e]).topic@,
                    )
                &&& forall|e1: int, e2: int|
                    #![auto]
                    0 <= e1 < e2 < plan@.len() ==> plan@[e1].topic@ != plan@[e2].topic@
                        || plan@[e1].node_id != plan@[e2].node_id
                &&& forall|ti: int, li: int|
                    #![auto]
                    0 <= ti < self.kafka_client.topics_metadata@.len()
                        && crate::kafka_client::requested_has(
                        topics@,
                        topics@.len() as int,
                        self.kafka_client.topics_metadata@[ti].topic@,
                    ) && 0 <= li < self.kafka_client.topics_metadata@[ti].leaders@.len()
                        && crate::kafka_client::group_selected(
                        self.kafka_client.topics_metadata@[ti].leaders@[li],
                    ) ==> crate::kafka_client::plan_covers(
                        plan@,
                        self.kafka_client.topics_metadata@[ti].topic@,
                        self.kafka_client.topics_metadata@[ti].leaders@[li].leader_id,
                    )
            },
    {
        self.kafka_client.plan_fetch(topics)
    }

    /// The address of the leader of `(topic, partition)`, when the cache
    /// routes it.
    pub fn produce_leader(&self, topic: &Vec<u8>, partition: i32) -> (r: Option<BrokerAddr>)
        requires
            self.kafka_client.cache_wf(),
        ensures
            r is Some <==> partition_routed(self.kafka_client.topics_metadata@, topic@, partition),
            r matches Option::Some(b) ==> {
                &&& exists|ti: int, li: int|
                    #![auto]
                    0 <= ti < self.kafka_client.topics_metadata@.len()
                        && self.kafka_client.topics_metadata@[ti].topic@ == topic@ && 0 <= li
                        < self.kafka_client.topics_metadata@[ti].leaders@.len()
                        && self.kafka_client.topics_metadata@[ti].leaders@[li].leader_id
                        == b.node_id && group_has_partition(
                        self.kafka_client.topics_metadata@[ti].leaders@[li],
                        partition,
                    )
                &&& crate::kafka_client::find_broker(self.kafka_client.brokers@, b.node_id)
                    matches Option::Some(fb) && b.host@ == fb.host@ && b.port == fb.port
                    && fb.node_id == b.node_id
            },
    {
        let ghost cache = self.kafka_client.topics_metadata@;
        let ti = match self.kafka_client.lookup_topic(topic) {
            Option::None => {
                proof {
                    if partition_routed(cache, topic@, partition) {
                        let (ti2, li2) = choose|ti2: int, li2: int|
                            #![auto]
                            0 <= ti2 < cache.len() && cache[ti2].topic@ == topic@ && 0 <= li2
                                < cache[ti2].leaders@.len() && group_has_partition(
                                cache[ti2].leaders@[li2],
                                partition,
                            );
                        assert(topic_known(cache, topic@));
                        assert(false);
                    }
                }
                return Option::None;
            },
            Option::Some(i) => i,
        };
        let groups_len = self.kafka_client.topics_metadata[ti].leaders.len();
        let mut li: usize = 0;
        while li < groups_len
            invariant
                li <= groups_len,
                self.kafka_client.cache_wf(),
                cache == self.kafka_client.topics_metadata@,
                ti < cache.len(),
                groups_len == cache[ti as int].leaders@.len(),
                cache[ti as int].topic@ == topic@,
                forall|m: int|
                    0 <= m < li ==> !group_has_partition(
                        #[trigger] cache[ti as int].leaders@[m],
                        partition,
                    ),
            decreases groups_len - li,
        {
            let grp = &self.kafka_client.topics_metadata[ti].leaders[li];
            let found = contains_i32(&grp.partitions, partition);
            proof {
                if found {
                    let w = choose|w: int|
                        0 <= w < grp.partitions@.len() && grp.partitions@[w] == partition;
                    assert((#[trigger] grp.partitions@[w]) == partition);
                    assert(group_has_partition(cache[ti as int].leaders@[li as int], partition));
                } else {
                    if group_has_partition(cache[ti as int].leaders@[li as int], partition) {
                        let w = choose|w: int|
                            0 <= w < grp.partitions@.len() && (#[trigger] grp.partitions@[w])
                                == partition;
                        assert(exists|m: int|
                            0 <= m < grp.partitions@.len() && grp.partitions@[m] == partition);
                        assert(false);
                    }
                }
            }
            if found {
                let leader_id = grp.leader_id;
                match self.kafka_client.broker_addr(leader_id) {
                    Option::Some(b) => {
                        proof {
                            assert(0 <= ti < cache.len() && cache[ti as int].topic@ == topic@
                                && 0 <= li < cache[ti as int].leaders@.len() && cache[
                            ti as int].leaders@[li as int].leader_id == b.node_id
                                && group_has_partition(
                                cache[ti as int].leaders@[li as int],
                                partition,
                            ));
                        }
                        return Option::Some(b);
                    },
                    Option::None => {
                        proof {
                            assert(crate::kafka_client::has_broker(
                                self.kafka_client.brokers@,
                                leader_id,
                            ));
                            assert(false);
                        }
                        return Option::None;
                    },
                }
            }
            li = li + 1;
        }
        proof {
            if partition_routed(cache, topic@, partition) {
                let (ti2, li2) = choose|ti2: int, li2: int|
                    #![auto]
                    0 <= ti2 < cache.len() && cache[ti2].topic@ == topic@ && 0 <= li2 < cache[
                        ti2
                    ].leaders@.len() && group_has_partition(cache[ti2].leaders@[li2], partition);
                assert(cache[ti2].topic@ == cache[ti as int].topic@);
                assert(ti2 == ti);
                assert(false);
            }
        }
        Option::None
    }
}

} // verus!
