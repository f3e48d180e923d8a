//! The cluster client's state: broker table, metadata cache, negotiated
//! API versions, and the correlation-id counter.
//!
//! Everything here is pure state and decision logic; opening sockets and
//! moving bytes is the caller's business.

use vstd::prelude::*;
use crate::api_versions::{ApiVersion, ApiVersionsResponse};
use crate::kafka_error_codes::{kafka_error, KafkaError};
use crate::fetch::FetchRequest;
use crate::metadata::{MetadataResponse, PartitionMetadataResponse, TopicMetadataResponse};

verus! {

/// One broker's address.
#[derive(Debug)]
pub struct BrokerAddr {
    pub node_id: i32,
    pub host: Vec<u8>,
    pub port: i32,
}

/// The partitions of one topic that share a leader.
#[derive(Debug)]
pub struct PartitionMetadata {
    pub leader_id: i32,
    pub partitions: Vec<i32>,
}

/// One topic's partitions, grouped by leader.
#[derive(Debug)]
pub struct TopicPartitions {
    pub topic: Vec<u8>,
    pub leaders: Vec<PartitionMetadata>,
}

/// Some broker in the table has this node id.
pub open spec fn has_broker(brokers: Seq<BrokerAddr>, id: i32) -> bool {
    exists|k: int| 0 <= k < brokers.len() && (#[trigger] brokers[k]).node_id == id
}

/// The first broker with this node id.
pub open spec fn find_broker(brokers: Seq<BrokerAddr>, id: i32) -> Option<BrokerAddr>
    decreases brokers.len(),
{
    if brokers.len() == 0 {
        Option::None
    } else if brokers[0].node_id == id {
        Option::Some(brokers[0])
    } else {
        find_broker(brokers.skip(1), id)
    }
}

/// The last table entry for this API key, as the broker table is built
/// with later entries superseding earlier ones.
pub open spec fn find_api_version(table: Seq<ApiVersion>, key: i16) -> Option<ApiVersion>
    decreases table.len(),
{
    if table.len() == 0 {
        Option::None
    } else if table.last().api_key == key {
        Option::Some(table.last())
    } else {
        find_api_version(table.drop_last(), key)
    }
}

/// The one version of each API this client can encode and decode.
pub open spec fn spec_client_version(api_key: i16) -> Option<i16> {
    if api_key == 0 {
        Option::Some(6i16)
    } else if api_key == 1 {
        Option::Some(8i16)
    } else if api_key == 2 {
        Option::Some(3i16)
    } else if api_key == 3 {
        Option::Some(6i16)
    } else if api_key == 8 {
        Option::Some(6i16)
    } else if api_key == 10 {
        Option::Some(2i16)
    } else if api_key == 11 {
        Option::Some(3i16)
    } else if api_key == 18 {
        Option::Some(1i16)
    } else if api_key == 19 {
        Option::Some(3i16)
    } else {
        Option::None
    }
}

/// Whether two byte strings hold the same bytes.
pub fn bytes_eq(a: &Vec<u8>, b: &Vec<u8>) -> (r: bool)
    ensures
        r <==> a@ == b@,
{
    if a.len() != b.len() {
        proof {
            assert(a@ != b@);
        }
        return false;
    }
    let mut k: usize = 0;
    while k < a.len()
        invariant
            k <= a@.len(),
            a@.len() == b@.len(),
            forall|m: int| 0 <= m < k ==> a@[m] == b@[m],
        decreases a@.len() - k,
    {
        if a[k] != b[k] {
            return false;
        }
        k = k + 1;
    }
    proof {
        assert(a@ =~= b@);
    }
    true
}

/// Whether the broker table has this node id.
pub fn has_broker_exec(brokers: &Vec<BrokerAddr>, id: i32) -> (r: bool)
    ensures
        r == has_broker(brokers@, id),
{
    let mut k: usize = 0;
    while k < brokers.len()
        invariant
            k <= brokers@.len(),
            forall|m: int| 0 <= m < k ==> (#[trigger] brokers@[m]).node_id != id,
        decreases brokers@.len() - k,
    {
        if brokers[k].node_id == id {
            proof {
                assert(has_broker(brokers@, id));
            }
            return true;
        }
        k = k + 1;
    }
    proof {
        if has_broker(brokers@, id) {
            let w = choose|m: int| 0 <= m < brokers@.len() && (#[trigger] brokers@[m]).node_id
                == id;
            assert(false);
        }
    }
    false
}

/// Whether `xs` holds `x`.
pub fn contains_i32(xs: &Vec<i32>, x: i32) -> (r: bool)
    ensures
        r <==> exists|k: int| 0 <= k < xs@.len() && xs@[k] == x,
{
    let mut k: usize = 0;
    while k < xs.len()
        invariant
            k <= xs@.len(),
            forall|m: int| 0 <= m < k ==> xs@[m] != x,
        decreases xs@.len() - k,
    {
        if xs[k] == x {
            return true;
        }
        k = k + 1;
    }
    false
}

/// Whether the cache has an entry for this topic name.
pub fn topic_present(topics: &Vec<TopicPartitions>, name: &Vec<u8>) -> (r: bool)
    ensures
        r <==> exists|k: int| 0 <= k < topics@.len() && (#[trigger] topics@[k]).topic@ == name@,
{
    let mut k: usize = 0;
    while k < topics.len()
        invariant
            k <= topics@.len(),
            forall|m: int| 0 <= m < k ==> (#[trigger] topics@[m]).topic@ != name@,
        decreases topics@.len() - k,
    {
        if bytes_eq(&topics[k].topic, name) {
            proof {
                assert((#[trigger] topics@[k as int]).topic@ == name@);
            }
            return true;
        }
        k = k + 1;
    }
    false
}

/// The partition indexes of this topic that name `leader`, in response
/// order.
pub open spec fn parts_for(ps: Seq<PartitionMetadataResponse>, leader: i32) -> Seq<i32>
    decreases ps.len(),
{
    if ps.len() == 0 {
        Seq::<i32>::empty()
    } else if ps[0].leader_id == leader {
        seq![ps[0].partition_index] + parts_for(ps.skip(1), leader)
    } else {
        parts_for(ps.skip(1), leader)
    }
}

/// Some partition entry names this leader with this index.
pub open spec fn leader_has_part(ps: Seq<PartitionMetadataResponse>, leader: i32, v: i32) -> bool {
    exists|pi: int|
        0 <= pi < ps.len() && (#[trigger] ps[pi]).leader_id == leader && ps[pi].partition_index
            == v
}

/// Each value of `parts_for` comes from a partition entry naming this
/// leader, and each such entry's index is a value of `parts_for`.
#[verifier::spinoff_prover]
proof fn lemma_parts_for(ps: Seq<PartitionMetadataResponse>, leader: i32)
    ensures
        forall|k: int|
            0 <= k < parts_for(ps, leader).len() ==> leader_has_part(
                ps,
                leader,
                #[trigger] parts_for(ps, leader)[k],
            ),
        forall|pi: int|
            0 <= pi < ps.len() && (#[trigger] ps[pi]).leader_id == leader ==> exists|k: int|
                #![auto]
                0 <= k < parts_for(ps, leader).len() && parts_for(ps, leader)[k]
                    == ps[pi].partition_index,
    decreases ps.len(),
{
    if ps.len() > 0 {
        lemma_parts_for(ps.skip(1), leader);
        let rest = parts_for(ps.skip(1), leader);
        assert forall|k: int| 0 <= k < parts_for(ps, leader).len() implies leader_has_part(
            ps,
            leader,
            #[trigger] parts_for(ps, leader)[k],
        ) by {
            if ps[0].leader_id == leader {
                if k == 0 {
                    assert(parts_for(ps, leader)[0] == ps[0].partition_index);
                    assert(ps[0].leader_id == leader);
                } else {
                    assert(parts_for(ps, leader)[k] == rest[k - 1]);
                    assert(leader_has_part(ps.skip(1), leader, rest[k - 1]));
                    let pj = choose|pj: int|
                        0 <= pj < ps.skip(1).len() && (#[trigger] ps.skip(1)[pj]).leader_id
                            == leader && ps.skip(1)[pj].partition_index == rest[k - 1];
                    assert(ps[pj + 1] == ps.skip(1)[pj]);
                }
            } else {
                assert(parts_for(ps, leader)[k] == rest[k]);
                assert(leader_has_part(ps.skip(1), leader, rest[k]));
                let pj = choose|pj: int|
                    0 <= pj < ps.skip(1).len() && (#[trigger] ps.skip(1)[pj]).leader_id == leader
                        && ps.skip(1)[pj].partition_index == rest[k];
                assert(ps[pj + 1] == ps.skip(1)[pj]);
            }
        }
        assert forall|pi: int|
            0 <= pi < ps.len() && (#[trigger] ps[pi]).leader_id == leader implies exists|k: int|
            #![auto]
            0 <= k < parts_for(ps, leader).len() && parts_for(ps, leader)[k]
                == ps[pi].partition_index by {
            if pi == 0 {
                assert(parts_for(ps, leader)[0] == ps[0].partition_index);
            } else {
                assert(ps.skip(1)[pi - 1] == ps[pi]);
                let k = choose|k: int|
                    #![auto]
                    0 <= k < rest.len() && rest[k] == ps.skip(1)[pi - 1].partition_index;
                if ps[0].leader_id == leader {
                    assert(parts_for(ps, leader)[k + 1] == rest[k]);
                } else {
                    assert(parts_for(ps, leader)[k] == rest[k]);
                }
            }
        }
    }
}

/// With pairwise-distinct partition indexes, `parts_for` lists are
/// pairwise distinct too, within one leader and across leaders.
#[verifier::spinoff_prover]
proof fn lemma_parts_for_distinct(ps: Seq<PartitionMetadataResponse>, l1: i32, l2: i32)
    requires
        forall|i: int, j: int|
            #![auto]
            0 <= i < j < ps.len() ==> ps[i].partition_index != ps[j].partition_index,
    ensures
        l1 == l2 ==> forall|a: int, b: int|
            #![auto]
            0 <= a < b < parts_for(ps, l1).len() ==> parts_for(ps, l1)[a] != parts_for(
                ps,
                l1,
            )[b],
        l1 != l2 ==> forall|a: int, b: int|
            #![auto]
            0 <= a < parts_for(ps, l1).len() && 0 <= b < parts_for(ps, l2).len() ==> parts_for(
                ps,
                l1,
            )[a] != parts_for(ps, l2)[b],
{
    lemma_parts_for(ps, l1);
    lemma_parts_for(ps, l2);
    if l1 == l2 {
        assert forall|a: int, b: int|
            #![auto]
            0 <= a < b < parts_for(ps, l1).len() implies parts_for(ps, l1)[a] != parts_for(
            ps,
            l1,
        )[b] by {
            lemma_parts_for_index_distinct(ps, l1, a, b);
        }
    } else {
        assert forall|a: int, b: int|
            #![auto]
            0 <= a < parts_for(ps, l1).len() && 0 <= b < parts_for(ps, l2).len() implies
            parts_for(ps, l1)[a] != parts_for(ps, l2)[b] by {
            if parts_for(ps, l1)[a] == parts_for(ps, l2)[b] {
                let pa = choose|pi: int|
                    #![auto]
                    0 <= pi < ps.len() && ps[pi].leader_id == l1 && ps[pi].partition_index
                        == parts_for(ps, l1)[a];
                let pb = choose|pi: int|
                    #![auto]
                    0 <= pi < ps.len() && ps[pi].leader_id == l2 && ps[pi].partition_index
                        == parts_for(ps, l2)[b];
                assert(pa != pb);
                assert(false);
            }
        }
    }
}

/// Distinct positions of one leader's list carry distinct indexes.
#[verifier::spinoff_prover]
proof fn lemma_parts_for_index_distinct(
    ps: Seq<PartitionMetadataResponse>,
    leader: i32,
    a: int,
    b: int,
)
    requires
        forall|i: int, j: int|
            #![auto]
            0 <= i < j < ps.len() ==> ps[i].partition_index != ps[j].partition_index,
        0 <= a < b < parts_for(ps, leader).len(),
    ensures
        parts_for(ps, leader)[a] != parts_for(ps, leader)[b],
    decreases ps.len(),
{
    if ps.len() > 0 {
        lemma_parts_for(ps.skip(1), leader);
        assert forall|i: int, j: int|
            #![auto]
            0 <= i < j < ps.skip(1).len() implies ps.skip(1)[i].partition_index != ps.skip(
            1,
        )[j].partition_index by {
            assert(ps.skip(1)[i] == ps[i + 1]);
            assert(ps.skip(1)[j] == ps[j + 1]);
        }
        if ps[0].leader_id == leader {
            if a == 0 {
                let rest = parts_for(ps.skip(1), leader);
                let pj = choose|pi: int|
                    #![auto]
                    0 <= pi < ps.skip(1).len() && ps.skip(1)[pi].leader_id == leader && ps.skip(
                        1,
                    )[pi].partition_index == rest[b - 1];
                assert(ps.skip(1)[pj] == ps[pj + 1]);
                assert(ps[0].partition_index != ps[pj + 1].partition_index);
            } else {
                lemma_parts_for_index_distinct(ps.skip(1), leader, a - 1, b - 1);
            }
        } else {
            lemma_parts_for_index_distinct(ps.skip(1), leader, a, b);
        }
    }
}

/// The partition indexes of this topic that name `leader`, as a vector.
#[verifier::spinoff_prover]
fn parts_for_leader(ps: &Vec<PartitionMetadataResponse>, leader: i32) -> (r: Vec<i32>)
    ensures
        r@ == parts_for(ps@, leader),
{
    let mut out: Vec<i32> = Vec::new();
    let mut k: usize = 0;
    proof {
        assert(ps@.skip(0) =~= ps@);
    }
    while k < ps.len()
        invariant
            k <= ps@.len(),
            parts_for(ps@, leader) == out@ + parts_for(ps@.skip(k as int), leader),
        decreases ps@.len() - k,
    {
        proof {
            assert(ps@.skip(k as int)[0] == ps@[k as int]);
            assert(ps@.skip(k as int).skip(1) =~= ps@.skip(k + 1));
        }
        if ps[k].leader_id == leader {
            out.push(ps[k].partition_index);
            proof {
                assert(parts_for(ps@, leader) =~= out@ + parts_for(ps@.skip(k + 1), leader));
            }
        }
        k = k + 1;
    }
    proof {
        assert(parts_for(ps@.skip(k as int), leader) =~= Seq::<i32>::empty());
        assert(out@ =~= out@ + parts_for(ps@.skip(k as int), leader));
    }
    out
}

/// No two of the partitions share an index, and every leader is a
/// known broker.
pub open spec fn parts_clean(ps: Seq<PartitionMetadataResponse>, brokers: Seq<BrokerAddr>) -> bool {
    &&& forall|i: int, j: int|
        #![auto]
        0 <= i < j < ps.len() ==> ps[i].partition_index != ps[j].partition_index
    &&& forall|i: int| #![auto] 0 <= i < ps.len() ==> has_broker(brokers, ps[i].leader_id)
}

/// Some partition entry carries this index.
pub open spec fn index_in(ps: Seq<PartitionMetadataResponse>, v: i32) -> bool {
    exists|k: int| 0 <= k < ps.len() && (#[trigger] ps[k]).partition_index == v
}

/// Whether some entry of `xs` carries this partition index.
fn index_in_exec(xs: &Vec<PartitionMetadataResponse>, v: i32) -> (r: bool)
    ensures
        r == index_in(xs@, v),
{
    let mut k: usize = 0;
    while k < xs.len()
        invariant
            k <= xs@.len(),
            forall|m: int| 0 <= m < k ==> (#[trigger] xs@[m]).partition_index != v,
        decreases xs@.len() - k,
    {
        if xs[k].partition_index == v {
            proof {
                assert((#[trigger] xs@[k as int]).partition_index == v);
            }
            return true;
        }
        k = k + 1;
    }
    proof {
        if index_in(xs@, v) {
            let w = choose|w: int| 0 <= w < xs@.len() && (#[trigger] xs@[w]).partition_index
                == v;
            assert(false);
        }
    }
    false
}

/// The routable partitions of a topic: those whose leader is a known
/// broker, keeping the first entry for each partition index.  A
/// partition whose leader is unknown — typically one carrying an error
/// code instead of a live leader — is skipped, and the rest of the topic
/// stays routable.
#[verifier::spinoff_prover]
#[verifier::rlimit(60)]
fn routable_partitions(ps: &Vec<PartitionMetadataResponse>, brokers: &Vec<BrokerAddr>) -> (r:
    Vec<PartitionMetadataResponse>)
    ensures
        parts_clean(r@, brokers@),
        forall|k: int|
            0 <= k < r@.len() ==> leader_has_part(
                ps@,
                (#[trigger] r@[k]).leader_id,
                r@[k].partition_index,
            ),
        forall|pj: int|
            0 <= pj < ps@.len() && has_broker(brokers@, (#[trigger] ps@[pj]).leader_id)
                ==> index_in(r@, ps@[pj].partition_index),
{
    let mut out: Vec<PartitionMetadataResponse> = Vec::new();
    let mut pi: usize = 0;
    while pi < ps.len()
        invariant
            pi <= ps@.len(),
            parts_clean(out@, brokers@),
            forall|k: int|
                0 <= k < out@.len() ==> leader_has_part(
                    ps@,
                    (#[trigger] out@[k]).leader_id,
                    out@[k].partition_index,
                ),
            forall|pj: int|
                0 <= pj < pi && has_broker(brokers@, (#[trigger] ps@[pj]).leader_id)
                    ==> index_in(out@, ps@[pj].partition_index),
        decreases ps@.len() - pi,
    {
        let ghost out0 = out@;
        let keep = has_broker_exec(brokers, ps[pi].leader_id) && !index_in_exec(
            &out,
            ps[pi].partition_index,
        );
        if keep {
            let p = PartitionMetadataResponse {
                error_code: ps[pi].error_code,
                partition_index: ps[pi].partition_index,
                leader_id: ps[pi].leader_id,
                replica_nodes: ps[pi].replica_nodes.clone(),
                isr_nodes: ps[pi].isr_nodes.clone(),
                offline_replicas: ps[pi].offline_replicas.clone(),
            };
            out.push(p);
        }
        pi = pi + 1;
        proof {
            assert forall|i: int, j: int|
                #![auto]
                0 <= i < j < out@.len() implies out@[i].partition_index
                != out@[j].partition_index by {
                if j == out0.len() {
                    assert(out@[i] == out0[i]);
                    assert(!index_in(out0, out@[j].partition_index));
                }
            }
            assert forall|i: int| #![auto] 0 <= i < out@.len() implies has_broker(
                brokers@,
                out@[i].leader_id,
            ) by {
                if i < out0.len() {
                    assert(out@[i] == out0[i]);
                }
            }
            assert forall|k: int| 0 <= k < out@.len() implies leader_has_part(
                ps@,
                (#[trigger] out@[k]).leader_id,
                out@[k].partition_index,
            ) by {
                if k < out0.len() {
                    assert(out@[k] == out0[k]);
                } else {
                    assert((#[trigger] ps@[pi - 1]).leader_id == out@[k].leader_id
                        && ps@[pi - 1].partition_index == out@[k].partition_index);
                }
            }
            assert forall|pj: int|
                0 <= pj < pi && has_broker(brokers@, (#[trigger] ps@[pj]).leader_id) implies
                index_in(out@, ps@[pj].partition_index) by {
                if pj < pi - 1 {
                    let w = choose|w: int|
                        0 <= w < out0.len() && (#[trigger] out0[w]).partition_index == ps@[
                            pj
                        ].partition_index;
                    assert((#[trigger] out@[w]).partition_index == ps@[pj].partition_index);
                } else {
                    if out@.len() > out0.len() {
                        assert((#[trigger] out@[out@.len() - 1]).partition_index == ps@[
                            pj
                        ].partition_index);
                    } else {
                        assert(index_in(out0, ps@[pi - 1].partition_index));
                        let w = choose|w: int|
                            0 <= w < out0.len() && (#[trigger] out0[w]).partition_index == ps@[
                                pi - 1
                            ].partition_index;
                        assert((#[trigger] out@[w]).partition_index == ps@[
                            pj
                        ].partition_index);
                    }
                }
            }
        }
    }
    out
}

/// The entry's leader groups are internally consistent and name known
/// brokers: distinct leaders, each partition index at most once, every
/// leader in the broker table.
pub open spec fn entry_wf(entry: TopicPartitions, brokers: Seq<BrokerAddr>) -> bool {
    &&& forall|a: int, b: int|
        #![auto]
        0 <= a < b < entry.leaders@.len() ==> entry.leaders@[a].leader_id
            != entry.leaders@[b].leader_id
    &&& forall|a: int, b: int, c: int, d: int|
        #![auto]
        0 <= a < entry.leaders@.len() && 0 <= b < entry.leaders@[a].partitions@.len() && 0 <= c
            < entry.leaders@.len() && 0 <= d < entry.leaders@[c].partitions@.len()
            && entry.leaders@[a].partitions@[b] == entry.leaders@[c].partitions@[d] ==> a == c
            && b == d
    &&& forall|a: int|
        0 <= a < entry.leaders@.len() ==> has_broker(
            brokers,
            (#[trigger] entry.leaders@[a]).leader_id,
        )
}

/// Some group records this partition index, under whichever leader.
pub open spec fn index_recorded(leaders: Seq<PartitionMetadata>, v: i32) -> bool {
    exists|a: int, k: int|
        #![auto]
        0 <= a < leaders.len() && 0 <= k < leaders[a].partitions@.len()
            && leaders[a].partitions@[k] == v
}

/// The entry holds exactly these partitions: every recorded pair comes
/// from the list, and every listed partition is recorded under its
/// leader.
pub open spec fn entry_matches_parts(
    entry: TopicPartitions,
    ps: Seq<PartitionMetadataResponse>,
) -> bool {
    &&& forall|a: int, k: int|
        0 <= a < entry.leaders@.len() && 0 <= k < entry.leaders@[a].partitions@.len()
            ==> leader_has_part(
            ps,
            entry.leaders@[a].leader_id,
            #[trigger] entry.leaders@[a].partitions@[k],
        )
    &&& forall|pi: int|
        0 <= pi < ps.len() ==> group_records(
            entry.leaders@,
            (#[trigger] ps[pi]).leader_id,
            ps[pi].partition_index,
        )
}

/// The entry routes the topic: it carries its name, records only
/// (leader, partition) pairs the topic lists, and records every
/// partition whose leader is a known broker.
pub open spec fn entry_routes_topic(
    entry: TopicPartitions,
    t: TopicMetadataResponse,
    brokers: Seq<BrokerAddr>,
) -> bool {
    &&& entry.topic@ == t.name@
    &&& forall|a: int, k: int|
        0 <= a < entry.leaders@.len() && 0 <= k < entry.leaders@[a].partitions@.len()
            ==> leader_has_part(
            t.partitions@,
            entry.leaders@[a].leader_id,
            #[trigger] entry.leaders@[a].partitions@[k],
        )
    &&& forall|pi: int|
        0 <= pi < t.partitions@.len() && has_broker(
            brokers,
            (#[trigger] t.partitions@[pi]).leader_id,
        ) ==> index_recorded(entry.leaders@, t.partitions@[pi].partition_index)
}

/// An entry that holds exactly a topic's routable partitions routes the
/// topic.
#[verifier::spinoff_prover]
proof fn lemma_entry_routes(
    entry: TopicPartitions,
    t: TopicMetadataResponse,
    clean: Seq<PartitionMetadataResponse>,
    brokers: Seq<BrokerAddr>,
)
    requires
        entry.topic@ == t.name@,
        entry_matches_parts(entry, clean),
        forall|k: int|
            0 <= k < clean.len() ==> leader_has_part(
                t.partitions@,
                (#[trigger] clean[k]).leader_id,
                clean[k].partition_index,
            ),
        forall|pj: int|
            0 <= pj < t.partitions@.len() && has_broker(
                brokers,
                (#[trigger] t.partitions@[pj]).leader_id,
            ) ==> index_in(clean, t.partitions@[pj].partition_index),
    ensures
        entry_routes_topic(entry, t, brokers),
{
    assert forall|a: int, k: int|
        0 <= a < entry.leaders@.len() && 0 <= k
            < entry.leaders@[a].partitions@.len() implies leader_has_part(
        t.partitions@,
        entry.leaders@[a].leader_id,
        #[trigger] entry.leaders@[a].partitions@[k],
    ) by {
        assert(leader_has_part(clean, entry.leaders@[a].leader_id, entry.leaders@[
        a].partitions@[k]));
        let ci = choose|ci: int|
            0 <= ci < clean.len() && (#[trigger] clean[ci]).leader_id
                == entry.leaders@[a].leader_id && clean[ci].partition_index == entry.leaders@[
                a
            ].partitions@[k];
        assert(leader_has_part(
            t.partitions@,
            clean[ci].leader_id,
            clean[ci].partition_index,
        ));
    }
    assert forall|pi: int|
        0 <= pi < t.partitions@.len() && has_broker(
            brokers,
            (#[trigger] t.partitions@[pi]).leader_id,
        ) implies index_recorded(entry.leaders@, t.partitions@[pi].partition_index) by {
        assert(index_in(clean, t.partitions@[pi].partition_index));
        let ci = choose|ci: int|
            0 <= ci < clean.len() && (#[trigger] clean[ci]).partition_index == t.partitions@[
                pi
            ].partition_index;
        assert(group_records(entry.leaders@, clean[ci].leader_id, clean[ci].partition_index));
        let (a, k) = choose|a: int, k: int|
            #![auto]
            0 <= a < entry.leaders@.len() && entry.leaders@[a].leader_id == clean[ci].leader_id
                && 0 <= k < entry.leaders@[a].partitions@.len() && entry.leaders@[
                a
            ].partitions@[k] == clean[ci].partition_index;
        assert(0 <= a < entry.leaders@.len() && 0 <= k < entry.leaders@[a].partitions@.len()
            && entry.leaders@[a].partitions@[k] == t.partitions@[pi].partition_index);
    }
}

/// `l` appears among the first `n` partitions' leaders.
pub open spec fn leader_in_prefix(ps: Seq<PartitionMetadataResponse>, n: int, l: i32) -> bool {
    exists|pj: int| 0 <= pj < n && (#[trigger] ps[pj]).leader_id == l
}

/// `l` is one of the collected leader ids.
pub open spec fn leader_listed(leader_ids: Seq<i32>, l: i32) -> bool {
    exists|x: int| 0 <= x < leader_ids.len() && (#[trigger] leader_ids[x]) == l
}

/// The distinct leader ids of a partition list, in order of first
/// appearance.
#[verifier::spinoff_prover]
#[verifier::rlimit(60)]
fn distinct_leaders(ps: &Vec<PartitionMetadataResponse>) -> (leader_ids: Vec<i32>)
    ensures
        forall|a: int, b: int|
            #![auto]
            0 <= a < b < leader_ids@.len() ==> leader_ids@[a] != leader_ids@[b],
        forall|x: int|
            0 <= x < leader_ids@.len() ==> leader_in_prefix(
                ps@,
                ps@.len() as int,
                #[trigger] leader_ids@[x],
            ),
        forall|pj: int|
            0 <= pj < ps@.len() ==> leader_listed(leader_ids@, (#[trigger] ps@[pj]).leader_id),
{
    let mut leader_ids: Vec<i32> = Vec::new();
    let mut pi: usize = 0;
    while pi < ps.len()
        invariant
            pi <= ps@.len(),
            forall|a: int, b: int|
                #![auto]
                0 <= a < b < leader_ids@.len() ==> leader_ids@[a] != leader_ids@[b],
            forall|x: int|
                0 <= x < leader_ids@.len() ==> leader_in_prefix(
                    ps@,
                    pi as int,
                    #[trigger] leader_ids@[x],
                ),
            forall|pj: int|
                0 <= pj < pi ==> leader_listed(leader_ids@, (#[trigger] ps@[pj]).leader_id),
        decreases ps@.len() - pi,
    {
        let lid = ps[pi].leader_id;
        let ghost ids0 = leader_ids@;
        if !contains_i32(&leader_ids, lid) {
            leader_ids.push(lid);
        }
        pi = pi + 1;
        proof {
            assert forall|a: int, b: int|
                #![auto]
                0 <= a < b < leader_ids@.len() implies leader_ids@[a] != leader_ids@[b] by {
                if b == ids0.len() {
                    assert(leader_ids@[a] == ids0[a]);
                }
            }
            assert forall|x: int| 0 <= x < leader_ids@.len() implies leader_in_prefix(
                ps@,
                pi as int,
                #[trigger] leader_ids@[x],
            ) by {
                if x < ids0.len() {
                    assert(leader_in_prefix(ps@, pi - 1, ids0[x]));
                    let pj = choose|pj: int|
                        0 <= pj < pi - 1 && (#[trigger] ps@[pj]).leader_id == ids0[x];
                    assert(leader_ids@[x] == ids0[x]);
                    assert((ps@[pj]).leader_id == leader_ids@[x]);
                } else {
                    assert(leader_ids@[x] == lid);
                    assert((ps@[pi - 1]).leader_id == lid);
                }
            }
            assert forall|pj: int| 0 <= pj < pi implies leader_listed(
                leader_ids@,
                (#[trigger] ps@[pj]).leader_id,
            ) by {
                if pj == pi - 1 {
                    if leader_ids@.len() > ids0.len() {
                        assert(leader_ids@[leader_ids@.len() - 1] == lid);
                    } else {
                        assert(exists|x: int| 0 <= x < ids0.len() && ids0[x] == lid);
                        let x = choose|x: int| 0 <= x < ids0.len() && ids0[x] == lid;
                        assert(leader_ids@[x] == lid);
                    }
                } else {
                    assert(leader_listed(ids0, ps@[pj].leader_id));
                    let x = choose|x: int|
                        0 <= x < ids0.len() && (#[trigger] ids0[x]) == ps@[pj].leader_id;
                    assert(leader_ids@[x] == ps@[pj].leader_id);
                }
            }
        }
    }
    leader_ids
}

/// Some group records this leader with this partition index.
pub open spec fn group_records(leaders: Seq<PartitionMetadata>, l: i32, v: i32) -> bool {
    exists|a: int, k: int|
        #![auto]
        0 <= a < leaders.len() && leaders[a].leader_id == l && 0 <= k
            < leaders[a].partitions@.len() && leaders[a].partitions@[k] == v
}

/// The shape shared by the grouping lemmas: each group's leader is the
/// id at its position, and its partitions are `parts_for` that leader.
pub open spec fn groups_form(
    leaders: Seq<PartitionMetadata>,
    leader_ids: Seq<i32>,
    ps: Seq<PartitionMetadataResponse>,
) -> bool {
    &&& leaders.len() == leader_ids.len()
    &&& forall|x: int|
        0 <= x < leaders.len() ==> (#[trigger] leaders[x]).leader_id == leader_ids[x]
            && leaders[x].partitions@ == parts_for(ps, leader_ids[x])
}

/// With distinct leaders and distinct partition indexes, a recorded
/// partition determines its group and position.
#[verifier::spinoff_prover]
proof fn lemma_groups_unique(
    leaders: Seq<PartitionMetadata>,
    leader_ids: Seq<i32>,
    ps: Seq<PartitionMetadataResponse>,
)
    requires
        groups_form(leaders, leader_ids, ps),
        forall|a: int, b: int|
            #![auto]
            0 <= a < b < leader_ids.len() ==> leader_ids[a] != leader_ids[b],
        forall|i: int, j: int|
            #![auto]
            0 <= i < j < ps.len() ==> ps[i].partition_index != ps[j].partition_index,
    ensures
        forall|a: int, b: int, c: int, d: int|
            #![auto]
            0 <= a < leaders.len() && 0 <= b < leaders[a].partitions@.len() && 0 <= c
                < leaders.len() && 0 <= d < leaders[c].partitions@.len()
                && leaders[a].partitions@[b] == leaders[c].partitions@[d] ==> a == c && b == d,
{
    assert forall|a: int, b: int, c: int, d: int|
        #![auto]
        0 <= a < leaders.len() && 0 <= b < leaders[a].partitions@.len() && 0 <= c
            < leaders.len() && 0 <= d < leaders[c].partitions@.len() && leaders[a].partitions@[b]
            == leaders[c].partitions@[d] implies a == c && b == d by {
        lemma_parts_for_distinct(ps, leader_ids[a], leader_ids[c]);
        if a != c {
            assert(leader_ids[a] != leader_ids[c]);
            assert(false);
        }
    }
}

/// Every group's leader occurs in the partition list.
#[verifier::spinoff_prover]
proof fn lemma_groups_leaders_occur(
    leaders: Seq<PartitionMetadata>,
    leader_ids: Seq<i32>,
    ps: Seq<PartitionMetadataResponse>,
)
    requires
        groups_form(leaders, leader_ids, ps),
        forall|x: int|
            0 <= x < leader_ids.len() ==> leader_in_prefix(
                ps,
                ps.len() as int,
                #[trigger] leader_ids[x],
            ),
    ensures
        forall|a: int|
            0 <= a < leaders.len() ==> leader_in_prefix(
                ps,
                ps.len() as int,
                (#[trigger] leaders[a]).leader_id,
            ),
{
    assert forall|a: int| 0 <= a < leaders.len() implies leader_in_prefix(
        ps,
        ps.len() as int,
        (#[trigger] leaders[a]).leader_id,
    ) by {
        assert(leader_in_prefix(ps, ps.len() as int, leader_ids[a]));
        assert(leaders[a].leader_id == leader_ids[a]);
    }
}

/// Every recorded partition comes from a partition entry with that
/// leader and index.
#[verifier::spinoff_prover]
proof fn lemma_groups_sound(
    leaders: Seq<PartitionMetadata>,
    leader_ids: Seq<i32>,
    ps: Seq<PartitionMetadataResponse>,
)
    requires
        groups_form(leaders, leader_ids, ps),
    ensures
        forall|a: int, k: int|
            0 <= a < leaders.len() && 0 <= k < leaders[a].partitions@.len() ==> leader_has_part(
                ps,
                leaders[a].leader_id,
                #[trigger] leaders[a].partitions@[k],
            ),
{
    assert forall|a: int, k: int|
        0 <= a < leaders.len() && 0 <= k < leaders[a].partitions@.len() implies leader_has_part(
        ps,
        leaders[a].leader_id,
        #[trigger] leaders[a].partitions@[k],
    ) by {
        lemma_parts_for(ps, leader_ids[a]);
        assert(leaders[a].partitions@[k] == parts_for(ps, leader_ids[a])[k]);
        assert(leader_has_part(ps, leader_ids[a], parts_for(ps, leader_ids[a])[k]));
        assert(leaders[a].leader_id == leader_ids[a]);
    }
}

/// Every partition entry is recorded under its leader.
#[verifier::spinoff_prover]
proof fn lemma_groups_complete(
    leaders: Seq<PartitionMetadata>,
    leader_ids: Seq<i32>,
    ps: Seq<PartitionMetadataResponse>,
)
    requires
        groups_form(leaders, leader_ids, ps),
        forall|pj: int|
            0 <= pj < ps.len() ==> leader_listed(leader_ids, (#[trigger] ps[pj]).leader_id),
    ensures
        forall|pi: int|
            0 <= pi < ps.len() ==> group_records(
                leaders,
                (#[trigger] ps[pi]).leader_id,
                ps[pi].partition_index,
            ),
{
    assert forall|pi2: int| 0 <= pi2 < ps.len() implies group_records(
        leaders,
        (#[trigger] ps[pi2]).leader_id,
        ps[pi2].partition_index,
    ) by {
        assert(leader_listed(leader_ids, ps[pi2].leader_id));
        let x = choose|x: int|
            0 <= x < leader_ids.len() && (#[trigger] leader_ids[x]) == ps[pi2].leader_id;
        lemma_parts_for(ps, ps[pi2].leader_id);
        let k = choose|k: int|
            #![auto]
            0 <= k < parts_for(ps, ps[pi2].leader_id).len() && parts_for(
                ps,
                ps[pi2].leader_id,
            )[k] == ps[pi2].partition_index;
        assert(leaders[x].leader_id == ps[pi2].leader_id);
        assert(leaders[x].partitions@[k] == ps[pi2].partition_index);
    }
}

/// Groups a clean partition list by leader, under the given topic name:
/// one group per distinct leader, in order of first appearance, each
/// holding exactly the partitions led by it.
#[verifier::rlimit(60)]
#[verifier::spinoff_prover]
fn build_topic_entry(name: &Vec<u8>, ps: &Vec<PartitionMetadataResponse>, brokers: &Vec<
    BrokerAddr,
>) -> (entry: TopicPartitions)
    requires
        parts_clean(ps@, brokers@),
    ensures
        entry_wf(entry, brokers@),
        entry.topic@ == name@,
        entry_matches_parts(entry, ps@),
{
    let leader_ids = distinct_leaders(ps);
    let mut leaders: Vec<PartitionMetadata> = Vec::new();
    let mut li: usize = 0;
    while li < leader_ids.len()
        invariant
            li <= leader_ids@.len(),
            leaders@.len() == li,
            forall|x: int|
                0 <= x < li ==> (#[trigger] leaders@[x]).leader_id == leader_ids@[x]
                    && leaders@[x].partitions@ == parts_for(ps@, leader_ids@[x]),
        decreases leader_ids@.len() - li,
    {
        let grp = parts_for_leader(ps, leader_ids[li]);
        leaders.push(PartitionMetadata { leader_id: leader_ids[li], partitions: grp });
        li = li + 1;
    }
    let entry = TopicPartitions { topic: name.clone(), leaders };
    proof {
        lemma_groups_unique(entry.leaders@, leader_ids@, ps@);
        lemma_groups_leaders_occur(entry.leaders@, leader_ids@, ps@);
        lemma_groups_sound(entry.leaders@, leader_ids@, ps@);
        lemma_groups_complete(entry.leaders@, leader_ids@, ps@);
        assert forall|a: int| 0 <= a < entry.leaders@.len() implies has_broker(
            brokers@,
            (#[trigger] entry.leaders@[a]).leader_id,
        ) by {
            let pj = choose|pj: int|
                #![auto]
                0 <= pj < ps@.len() && ps@[pj].leader_id == entry.leaders@[a].leader_id;
            assert(has_broker(brokers@, ps@[pj].leader_id));
        }
    }
    entry
}

/// The cache refresh takes the response topic at `ti` when it is
/// error-free and the first entry with its name.
pub open spec fn topic_selected(m: MetadataResponse, ti: int) -> bool {
    &&& m.topics@[ti].error_code == 0
    &&& first_topic_occurrence(m.topics@, ti)
}

/// The cache holds an entry that matches the response topic at `ti`.
pub open spec fn cache_has_entry_for(
    topics: Seq<TopicPartitions>,
    m: MetadataResponse,
    brokers: Seq<BrokerAddr>,
    ti: int,
) -> bool {
    exists|x: int|
        0 <= x < topics.len() && entry_routes_topic(#[trigger] topics[x], m.topics@[ti], brokers)
}

/// The entry matches some error-free topic of the response.
pub open spec fn entry_from_response(
    m: MetadataResponse,
    brokers: Seq<BrokerAddr>,
    e: TopicPartitions,
) -> bool {
    exists|ti: int|
        0 <= ti < m.topics@.len() && (#[trigger] m.topics@[ti]).error_code == 0
            && entry_routes_topic(e, m.topics@[ti], brokers)
}

/// Appending a well-formed entry for a fresh topic name keeps the cache
/// invariants.
#[verifier::spinoff_prover]
#[verifier::rlimit(60)]
proof fn lemma_wf_push(topics0: Seq<TopicPartitions>, entry: TopicPartitions, brokers: Seq<
    BrokerAddr,
>)
    requires
        topics_wf(topics0, brokers),
        entry_wf(entry, brokers),
        forall|x: int| 0 <= x < topics0.len() ==> (#[trigger] topics0[x]).topic@ != entry.topic@,
    ensures
        topics_wf(topics0.push(entry), brokers),
{
    let topics = topics0.push(entry);
    assert(topics[topics.len() - 1] == entry);
    assert forall|x: int| 0 <= x < topics0.len() implies topics[x] == topics0[x] by {}
}

/// The topic at `ti` is the first response entry with its name.
pub open spec fn first_topic_occurrence(topics: Seq<TopicMetadataResponse>, ti: int) -> bool {
    forall|tj: int| 0 <= tj < ti ==> (#[trigger] topics[tj]).name@ != topics[ti].name@
}

/// The metadata-cache invariants: topic names occur once, a topic's
/// leader groups have distinct leaders, a partition index appears at most
/// once across a topic's groups, and every leader id is a known broker.
pub open spec fn topics_wf(topics: Seq<TopicPartitions>, brokers: Seq<BrokerAddr>) -> bool {
    &&& forall|i: int, j: int|
        0 <= i < j < topics.len() ==> (#[trigger] topics[i]).topic@ != (
        #[trigger] topics[j]).topic@
    &&& forall|t: int, i: int, j: int|
        #![auto]
        0 <= t < topics.len() && 0 <= i < j < topics[t].leaders@.len()
            ==> topics[t].leaders@[i].leader_id != topics[t].leaders@[j].leader_id
    &&& forall|t: int, li: int, pi: int, lj: int, pj: int|
        #![auto]
        0 <= t < topics.len() && 0 <= li < topics[t].leaders@.len() && 0 <= pi
            < topics[t].leaders@[li].partitions@.len() && 0 <= lj < topics[t].leaders@.len() && 0
            <= pj < topics[t].leaders@[lj].partitions@.len()
            && topics[t].leaders@[li].partitions@[pi] == topics[t].leaders@[lj].partitions@[pj]
            ==> li == lj && pi == pj
    &&& forall|t: int, li: int|
        #![auto]
        0 <= t < topics.len() && 0 <= li < topics[t].leaders@.len() ==> has_broker(
            brokers,
            topics[t].leaders@[li].leader_id,
        )
}

/// The cluster client: connection seeds, broker table, API-version
/// table, metadata cache, and the correlation-id counter.
#[derive(Debug)]
pub struct KafkaClient {
    pub client_id: Vec<u8>,
    pub api_versions: Vec<ApiVersion>,
    pub hosts: Vec<Vec<u8>>,
    pub brokers: Vec<BrokerAddr>,
    pub next_broker: usize,
    pub topics_metadata: Vec<TopicPartitions>,
    pub correlation_id: i32,
}

impl KafkaClient {
    /// The metadata-cache invariants: topic names occur once, a topic's
    /// leader groups have distinct leaders, a partition index appears at
    /// most once across a topic's groups, and every leader id is a known
    /// broker.
    pub open spec fn cache_wf(self) -> bool {
        topics_wf(self.topics_metadata@, self.brokers@)
    }

    /// A fresh client over `hosts`, with nothing discovered yet.
    pub fn new(hosts: Vec<Vec<u8>>, client_id: Vec<u8>) -> (r: Self)
        ensures
            r.client_id@ == client_id@,
            r.hosts@ == hosts@,
            r.api_versions@ == Seq::<ApiVersion>::empty(),
            r.brokers@ == Seq::<BrokerAddr>::empty(),
            r.topics_metadata@ == Seq::<TopicPartitions>::empty(),
            r.next_broker == 0,
            r.correlation_id == 1,
            r.cache_wf(),
    {
        Self {
            client_id,
            api_versions: Vec::new(),
            hosts,
            brokers: Vec::new(),
            next_broker: 0,
            topics_metadata: Vec::new(),
            correlation_id: 1,
        }
    }

    /// A fresh correlation id.  Each call returns a value strictly above
    /// every value returned before, so ids strictly increase over the
    /// client's lifetime.
    pub fn correlation_id(&mut self) -> (r: i32)
        requires
            old(self).correlation_id < i32::MAX,
        ensures
            final(self).correlation_id == old(self).correlation_id + 1,
            r == final(self).correlation_id,
            r > old(self).correlation_id,
            final(self).client_id == old(self).client_id,
            final(self).api_versions == old(self).api_versions,
            final(self).hosts == old(self).hosts,
            final(self).brokers == old(self).brokers,
            final(self).next_broker == old(self).next_broker,
            final(self).topics_metadata == old(self).topics_metadata,
    {
        self.correlation_id = self.correlation_id + 1;
        self.correlation_id
    }

    /// The next broker in round-robin order, advancing the cursor.
    pub fn next_broker(&mut self) -> (r: Option<BrokerAddr>)
        ensures
            final(self).brokers == old(self).brokers,
            final(self).topics_metadata == old(self).topics_metadata,
            final(self).api_versions == old(self).api_versions,
            final(self).correlation_id == old(self).correlation_id,
            old(self).brokers@.len() == 0 ==> r is None && final(self).next_broker == old(
                self,
            ).next_broker,
            old(self).brokers@.len() > 0 ==> {
                let k = old(self).next_broker as int % old(self).brokers@.len() as int;
                &&& r matches Option::Some(b)
                &&& b.node_id == old(self).brokers@[k].node_id
                &&& b.host@ == old(self).brokers@[k].host@
                &&& b.port == old(self).brokers@[k].port
                &&& final(self).next_broker == (k + 1) % old(self).brokers@.len() as int
            },
    {
        if self.brokers.len() == 0 {
            return Option::None;
        }
        let k = self.next_broker % self.brokers.len();
        let b = BrokerAddr {
            node_id: self.brokers[k].node_id,
            host: self.brokers[k].host.clone(),
            port: self.brokers[k].port,
        };
        self.next_broker = (k + 1) % self.brokers.len();
        Option::Some(b)
    }

    /// The address of the broker with this node id, if known.
    pub fn broker_addr(&self, node_id: i32) -> (r: Option<BrokerAddr>)
        ensures
            r is Some <==> has_broker(self.brokers@, node_id),
            r matches Option::Some(b) ==> {
                &&& find_broker(self.brokers@, node_id) matches Option::Some(fb)
                &&& b.node_id == fb.node_id
                &&& b.host@ == fb.host@
                &&& b.port == fb.port
                &&& b.node_id == node_id
            },
    {
        let ghost bs = self.brokers@;
        let mut k: usize = 0;
        proof {
            assert(bs.skip(0) =~= bs);
        }
        while k < self.brokers.len()
            invariant
                k <= bs.len(),
                self.brokers@ == bs,
                forall|m: int| 0 <= m < k ==> (#[trigger] bs[m]).node_id != node_id,
                find_broker(bs, node_id) == find_broker(bs.skip(k as int), node_id),
            decreases bs.len() - k,
        {
            proof {
                assert(bs.skip(k as int)[0] == bs[k as int]);
                assert(bs.skip(k as int).skip(1) =~= bs.skip(k + 1));
            }
            if self.brokers[k].node_id == node_id {
                let b = BrokerAddr {
                    node_id: self.brokers[k].node_id,
                    host: self.brokers[k].host.clone(),
                    port: self.brokers[k].port,
                };
                proof {
                    assert(has_broker(bs, node_id));
                }
                return Option::Some(b);
            }
            k = k + 1;
        }
        proof {
            assert(bs.skip(bs.len() as int) =~= Seq::<BrokerAddr>::empty());
            if has_broker(bs, node_id) {
                let w = choose|m: int| 0 <= m < bs.len() && (#[trigger] bs[m]).node_id
                    == node_id;
                assert(false);
            }
        }
        Option::None
    }

    /// Installs the broker-advertised version table.
    pub fn update_api_versions(&mut self, response: &ApiVersionsResponse)
        ensures
            final(self).api_versions@ == response.api_versions@,
            final(self).client_id == old(self).client_id,
            final(self).hosts == old(self).hosts,
            final(self).brokers == old(self).brokers,
            final(self).next_broker == old(self).next_broker,
            final(self).topics_metadata == old(self).topics_metadata,
            final(self).correlation_id == old(self).correlation_id,
    {
        let mut table: Vec<ApiVersion> = Vec::new();
        let mut k: usize = 0;
        while k < response.api_versions.len()
            invariant
                k <= response.api_versions@.len(),
                table@ == response.api_versions@.take(k as int),
            decreases response.api_versions@.len() - k,
        {
            table.push(response.api_versions[k]);
            k = k + 1;
            proof {
                assert(table@ =~= response.api_versions@.take(k as int));
            }
        }
        proof {
            assert(response.api_versions@.take(k as int) =~= response.api_versions@);
        }
        self.api_versions = table;
    }

    /// Replaces the broker table and the metadata cache from a Metadata
    /// response: the brokers verbatim, and one entry for every
    /// first-named, error-free topic whose partition list is consistent,
    /// holding exactly that topic's partition indexes grouped by leader.
    /// The rebuilt cache satisfies the cache invariants, so every leader
    /// key refers to a known broker.
    #[verifier::spinoff_prover]
    #[verifier::rlimit(60)]
    pub fn update_topics_metadata(&mut self, metadata: &MetadataResponse)
        ensures
            final(self).cache_wf(),
            final(self).brokers@.len() == metadata.brokers@.len(),
            forall|k: int|
                0 <= k < metadata.brokers@.len() ==> {
                    &&& (#[trigger] final(self).brokers@[k]).node_id
                        == metadata.brokers@[k].node_id
                    &&& final(self).brokers@[k].host@ == metadata.brokers@[k].host@
                    &&& final(self).brokers@[k].port == metadata.brokers@[k].port
                },
            forall|ti: int|
                0 <= ti < metadata.topics@.len() && #[trigger] topic_selected(*metadata, ti)
                    ==> cache_has_entry_for(
                    final(self).topics_metadata@,
                    *metadata,
                    final(self).brokers@,
                    ti,
                ),
            forall|x: int|
                0 <= x < final(self).topics_metadata@.len() ==> entry_from_response(
                    *metadata,
                    final(self).brokers@,
                    #[trigger] final(self).topics_metadata@[x],
                ),
            final(self).client_id == old(self).client_id,
            final(self).api_versions == old(self).api_versions,
            final(self).hosts == old(self).hosts,
            final(self).next_broker == old(self).next_broker,
            final(self).correlation_id == old(self).correlation_id,
    {
        let mut brokers: Vec<BrokerAddr> = Vec::new();
        let mut bi: usize = 0;
        while bi < metadata.brokers.len()
            invariant
                bi <= metadata.brokers@.len(),
                brokers@.len() == bi,
                forall|m: int|
                    0 <= m < bi ==> {
                        &&& (#[trigger] brokers@[m]).node_id == metadata.brokers@[m].node_id
                        &&& brokers@[m].host@ == metadata.brokers@[m].host@
                        &&& brokers@[m].port == metadata.brokers@[m].port
                    },
            decreases metadata.brokers@.len() - bi,
        {
            brokers.push(
                BrokerAddr {
                    node_id: metadata.brokers[bi].node_id,
                    host: metadata.brokers[bi].host.clone(),
                    port: metadata.brokers[bi].port,
                },
            );
            bi = bi + 1;
        }
        self.brokers = brokers;
        let ghost bs = self.brokers@;

        let mut topics: Vec<TopicPartitions> = Vec::new();
        let mut ti: usize = 0;
        while ti < metadata.topics.len()
            invariant
                ti <= metadata.topics@.len(),
                self.brokers@ == bs,
                topics_wf(topics@, bs),
                forall|x: int|
                    0 <= x < topics@.len() ==> exists|tj: int|
                        0 <= tj < ti && (#[trigger] topics@[x]).topic@ == metadata.topics@[
                            tj
                        ].name@,
                forall|x: int|
                    0 <= x < topics@.len() ==> entry_from_response(
                        *metadata,
                        bs,
                        #[trigger] topics@[x],
                    ),
                forall|tj: int|
                    0 <= tj < ti && #[trigger] topic_selected(*metadata, tj)
                        ==> cache_has_entry_for(topics@, *metadata, bs, tj),
            decreases metadata.topics@.len() - ti,
        {
            let ghost topics0 = topics@;
            let t = &metadata.topics[ti];
            let error_free = t.error_code == 0;
            let fresh = !topic_present(&topics, &t.name);
            if error_free && fresh {
                let clean_parts = routable_partitions(&t.partitions, &self.brokers);
                let entry = build_topic_entry(&t.name, &clean_parts, &self.brokers);
                proof {
                    lemma_entry_routes(entry, metadata.topics@[ti as int], clean_parts@, bs);
                    lemma_wf_push(topics0, entry, bs);
                }
                topics.push(entry);
                proof {
                    let n0 = topics0.len() as int;
                    assert(topics@ == topics0.push(entry));
                    assert(topics@[n0] == entry);
                    assert forall|x: int| 0 <= x < topics@.len() implies exists|tj: int|
                        0 <= tj < ti + 1 && (#[trigger] topics@[x]).topic@ == metadata.topics@[
                            tj
                        ].name@ by {
                        if x < n0 {
                            assert(topics@[x] == topics0[x]);
                            let tj = choose|tj: int|
                                0 <= tj < ti && (#[trigger] topics0[x]).topic@
                                    == metadata.topics@[tj].name@;
                            assert(topics@[x].topic@ == metadata.topics@[tj].name@);
                        } else {
                            assert(topics@[x].topic@ == metadata.topics@[ti as int].name@);
                        }
                    }
                    assert forall|x: int| 0 <= x < topics@.len() implies entry_from_response(
                        *metadata,
                        bs,
                        #[trigger] topics@[x],
                    ) by {
                        if x < n0 {
                            assert(topics@[x] == topics0[x]);
                        } else {
                            assert(entry_routes_topic(entry, metadata.topics@[ti as int], bs));
                        }
                    }
                    assert forall|tj: int|
                        0 <= tj < ti + 1 && #[trigger] topic_selected(*metadata, tj) implies
                        cache_has_entry_for(topics@, *metadata, bs, tj) by {
                        if tj < ti {
                            let x = choose|x: int|
                                0 <= x < topics0.len() && entry_routes_topic(
                                    #[trigger] topics0[x],
                                    metadata.topics@[tj],
                                    bs,
                                );
                            assert(topics@[x] == topics0[x]);
                            assert(entry_routes_topic(topics@[x], metadata.topics@[tj], bs));
                        } else {
                            assert(entry_routes_topic(topics@[n0], metadata.topics@[tj], bs));
                        }
                    }
                }
            } else {
                proof {
                    assert forall|tj: int|
                        0 <= tj < ti + 1 && #[trigger] topic_selected(*metadata, tj) implies
                        cache_has_entry_for(topics@, *metadata, bs, tj) by {
                        if tj == ti {
                            if !error_free {
                                assert(false);
                            } else {
                                let x = choose|x: int|
                                    0 <= x < topics@.len() && (#[trigger] topics@[x]).topic@
                                        == metadata.topics@[ti as int].name@;
                                let tk = choose|tk: int|
                                    0 <= tk < ti && (#[trigger] topics@[x]).topic@
                                        == metadata.topics@[tk].name@;
                                assert(metadata.topics@[tk].name@ == metadata.topics@[
                                    ti as int
                                ].name@);
                                assert(false);
                            }
                        }
                    }
                }
            }
            ti = ti + 1;
        }
        self.topics_metadata = topics;
    }


    /// The version to use for an API: the client's own version for that
    /// key, when it lies in the broker-advertised interval; otherwise the
    /// call is unsupported.
    pub fn negotiated_version(&self, api_key: i16) -> (r: Result<i16, KafkaError>)
        ensures
            match (find_api_version(self.api_versions@, api_key), spec_client_version(api_key)) {
                (Option::Some(e), Option::Some(cv)) => if e.min_version <= cv <= e.max_version {
                    r == Result::<i16, KafkaError>::Ok(cv)
                } else {
                    r matches Result::Err(err) && err.code == 35
                },
                _ => r matches Result::Err(err) && err.code == 35,
            },
    {
        let entry = self.lookup_api_version(api_key);
        let cv = Self::client_version(api_key);
        match (entry, cv) {
            (Option::Some(e), Option::Some(v)) => {
                if e.min_version <= v && v <= e.max_version {
                    Result::Ok(v)
                } else {
                    Result::Err(
                        kafka_error(35, "UNSUPPORTED_VERSION", "The version of API is not supported."),
                    )
                }
            },
            _ => Result::Err(
                kafka_error(35, "UNSUPPORTED_VERSION", "The version of API is not supported."),
            ),
        }
    }

    /// The client's own version for an API key.
    pub fn client_version(api_key: i16) -> (r: Option<i16>)
        ensures
            r == spec_client_version(api_key),
    {
        if api_key == 0 {
            Option::Some(6)
        } else if api_key == 1 {
            Option::Some(8)
        } else if api_key == 2 {
            Option::Some(3)
        } else if api_key == 3 {
            Option::Some(6)
        } else if api_key == 8 {
            Option::Some(6)
        } else if api_key == 10 {
            Option::Some(2)
        } else if api_key == 11 {
            Option::Some(3)
        } else if api_key == 18 {
            Option::Some(1)
        } else if api_key == 19 {
            Option::Some(3)
        } else {
            Option::None
        }
    }

    /// The last version-table entry for this key.
    fn lookup_api_version(&self, api_key: i16) -> (r: Option<ApiVersion>)
        ensures
            r == find_api_version(self.api_versions@, api_key),
    {
        let ghost table = self.api_versions@;
        let mut k: usize = self.api_versions.len();
        proof {
            assert(table.take(table.len() as int) =~= table);
        }
        while k > 0
            invariant
                k <= table.len(),
                self.api_versions@ == table,
                find_api_version(table, api_key) == find_api_version(
                    table.take(k as int),
                    api_key,
                ),
            decreases k,
        {
            k = k - 1;
            proof {
                assert(table.take(k + 1).last() == table[k as int]);
                assert(table.take(k + 1).drop_last() =~= table.take(k as int));
            }
            if self.api_versions[k].api_key == api_key {
                return Option::Some(self.api_versions[k]);
            }
        }
        proof {
            assert(table.take(0) =~= Seq::<ApiVersion>::empty());
        }
        Option::None
    }
}

/// A partitioned call could not be routed.
#[derive(Debug, PartialEq, Eq, Structural, Clone, Copy)]
pub enum RouteError {
    NoRouteForTopic,
}

/// One outbound Fetch of a fan-out: the broker to contact, the topic,
/// the partitions that broker leads, and the framed-ready request body.
#[derive(Debug)]
pub struct FetchPlanEntry {
    pub node_id: i32,
    pub host: Vec<u8>,
    pub port: i32,
    pub topic: Vec<u8>,
    pub partitions: Vec<i32>,
    pub request: FetchRequest,
}

/// A leader group worth one fetch: non-empty, and small enough to count.
pub open spec fn group_selected(g: PartitionMetadata) -> bool {
    0 < g.partitions@.len() <= i32::MAX
}

/// The plan entry reproduces one leader group of the cache, carries that
/// leader's address, and holds a single-topic Fetch request for exactly
/// those partitions from offset 0.
pub open spec fn plan_entry_valid(
    cache: Seq<TopicPartitions>,
    brokers: Seq<BrokerAddr>,
    pe: FetchPlanEntry,
) -> bool {
    &&& exists|ti: int, li: int|
        #![auto]
        0 <= ti < cache.len() && cache[ti].topic@ == pe.topic@ && 0 <= li
            < cache[ti].leaders@.len() && cache[ti].leaders@[li].leader_id == pe.node_id
            && cache[ti].leaders@[li].partitions@ == pe.partitions@
    &&& group_selected(PartitionMetadata { leader_id: pe.node_id, partitions: pe.partitions })
    &&& find_broker(brokers, pe.node_id) matches Option::Some(b) && pe.host@ == b.host@
        && pe.port == b.port && b.node_id == pe.node_id
    &&& pe.request.topics@.len() == 1
    &&& pe.request.topics@[0].topic.0@ == pe.topic@
    &&& pe.request.topics@[0].partitions@.len() == pe.partitions@.len()
    &&& forall|m: int|
        0 <= m < pe.partitions@.len() ==> (
        #[trigger] pe.request.topics@[0].partitions@[m]).partition == pe.partitions@[m]
            && pe.request.topics@[0].partitions@[m].fetch_offset == 0
            && pe.request.topics@[0].partitions@[m].partition_max_bytes == 10000
    &&& pe.request.replica_id == -1
    &&& pe.request.max_wait_ms == 5000
    &&& pe.request.forgotten_topics_data@.len() == 0
}

/// The plan has an entry for this topic and leader.
pub open spec fn plan_covers(plan: Seq<FetchPlanEntry>, name: Seq<u8>, leader: i32) -> bool {
    exists|e: int|
        0 <= e < plan.len() && (#[trigger] plan[e]).topic@ == name && plan[e].node_id == leader
}

/// The cache has an entry with this topic name.
pub open spec fn topic_known(cache: Seq<TopicPartitions>, name: Seq<u8>) -> bool {
    exists|y: int| 0 <= y < cache.len() && (#[trigger] cache[y]).topic@ == name
}

/// `name` is one of the first `n` requested topics.
pub open spec fn requested_has(ts: Seq<Vec<u8>>, n: int, name: Seq<u8>) -> bool {
    exists|k: int| 0 <= k < n && (#[trigger] ts[k])@ == name
}

/// `id` is the leader of one of the first `n` groups.
pub open spec fn node_among(leaders: Seq<PartitionMetadata>, n: int, id: i32) -> bool {
    exists|m: int| 0 <= m < n && (#[trigger] leaders[m]).leader_id == id
}

/// Whether `name` occurs among the first `n` requested topics.
fn name_in_prefix(topics: &Vec<Vec<u8>>, n: usize, name: &Vec<u8>) -> (r: bool)
    requires
        n <= topics@.len(),
    ensures
        r == requested_has(topics@, n as int, name@),
{
    let mut j: usize = 0;
    while j < n
        invariant
            j <= n <= topics@.len(),
            forall|m: int| 0 <= m < j ==> (#[trigger] topics@[m])@ != name@,
        decreases n - j,
    {
        if bytes_eq(&topics[j], name) {
            proof {
                assert((#[trigger] topics@[j as int])@ == name@);
            }
            return true;
        }
        j = j + 1;
    }
    proof {
        if requested_has(topics@, n as int, name@) {
            let w = choose|w: int| 0 <= w < n && (#[trigger] topics@[w])@ == name@;
            assert(false);
        }
    }
    false
}

/// Growing a plan keeps everything it already covered.
proof fn lemma_plan_covers_push(plan0: Seq<FetchPlanEntry>, pe: FetchPlanEntry)
    ensures
        forall|name: Seq<u8>, leader: i32|
            #[trigger] plan_covers(plan0, name, leader) ==> plan_covers(
                plan0.push(pe),
                name,
                leader,
            ),
{
    assert forall|name: Seq<u8>, leader: i32|
        #[trigger] plan_covers(plan0, name, leader) implies plan_covers(
        plan0.push(pe),
        name,
        leader,
    ) by {
        let e = choose|e: int|
            0 <= e < plan0.len() && (#[trigger] plan0[e]).topic@ == name && plan0[e].node_id
                == leader;
        assert(plan0.push(pe)[e] == plan0[e]);
    }
}

impl KafkaClient {
    /// The index of the cache entry for this topic name, if any.
    pub fn lookup_topic(&self, name: &Vec<u8>) -> (r: Option<usize>)
        ensures
            r is Some <==> topic_known(self.topics_metadata@, name@),
            r matches Option::Some(i) ==> 0 <= i < self.topics_metadata@.len()
                && self.topics_metadata@[i as int].topic@ == name@,
    {
        let mut k: usize = 0;
        while k < self.topics_metadata.len()
            invariant
                k <= self.topics_metadata@.len(),
                forall|m: int|
                    0 <= m < k ==> (#[trigger] self.topics_metadata@[m]).topic@ != name@,
            decreases self.topics_metadata@.len() - k,
        {
            if bytes_eq(&self.topics_metadata[k].topic, name) {
                proof {
                    assert((#[trigger] self.topics_metadata@[k as int]).topic@ == name@);
                }
                return Option::Some(k);
            }
            k = k + 1;
        }
        proof {
            if topic_known(self.topics_metadata@, name@) {
                let y = choose|y: int|
                    0 <= y < self.topics_metadata@.len() && (
                    #[trigger] self.topics_metadata@[y]).topic@ == name@;
                assert(false);
            }
        }
        Option::None
    }

    /// Plans a fetch fan-out: exactly one request per (topic, leader)
    /// pair of the requested topics whose partition list is non-empty,
    /// addressed to that leader, and no request to any other broker or
    /// for any other topic; a topic requested twice is fetched once.
    /// Fails if and only if some requested topic is absent from the
    /// cache.
    #[verifier::spinoff_prover]
    #[verifier::rlimit(60)]
    pub fn plan_fetch(&self, topics: &Vec<Vec<u8>>) -> (r: Result<Vec<FetchPlanEntry>, RouteError>)
        requires
            self.cache_wf(),
            forall|k: int| 0 <= k < topics@.len() ==> (#[trigger] topics@[k])@.len() <= i16::MAX,
        ensures
            r is Ok <==> forall|k: int|
                0 <= k < topics@.len() ==> topic_known(
                    self.topics_metadata@,
                    (#[trigger] topics@[k])@,
                ),
            r matches Result::Err(e) ==> e == RouteError::NoRouteForTopic,
            r matches Result::Ok(plan) ==> {
                &&& forall|e: int|
                    0 <= e < plan@.len() ==> plan_entry_valid(
                        self.topics_metadata@,
                        self.brokers@,
                        #[trigger] plan@[e],
                    )
                &&& forall|e: int|
                    0 <= e < plan@.len() ==> requested_has(
                        topics@,
                        topics@.len() as int,
                        (#[trigger] plan@[e]).topic@,
                    )
                &&& forall|e1: int, e2: int|
                    #![auto]
                    0 <= e1 < e2 < plan@.len() ==> plan@[e1].topic@ != plan@[e2].topic@
                        || plan@[e1].node_id != plan@[e2].node_id
                &&& forall|ti: int, li: int|
                    #![auto]
                    0 <= ti < self.topics_metadata@.len() && requested_has(
                        topics@,
                        topics@.len() as int,
                        self.topics_metadata@[ti].topic@,
                    ) && 0 <= li < self.topics_metadata@[ti].leaders@.len() && group_selected(
                        self.topics_metadata@[ti].leaders@[li],
                    ) ==> plan_covers(
                        plan@,
                        self.topics_metadata@[ti].topic@,
                        self.topics_metadata@[ti].leaders@[li].leader_id,
                    )
            },
    {
        let cache_len = self.topics_metadata.len();
        let mut plan: Vec<FetchPlanEntry> = Vec::new();
        let mut k: usize = 0;
        while k < topics.len()
            invariant
                k <= topics@.len(),
                self.cache_wf(),
                forall|x: int| 0 <= x < topics@.len() ==> (#[trigger] topics@[x])@.len()
                    <= i16::MAX,
                forall|e: int|
                    0 <= e < plan@.len() ==> plan_entry_valid(
                        self.topics_metadata@,
                        self.brokers@,
                        #[trigger] plan@[e],
                    ),
                forall|x: int|
                    0 <= x < k ==> topic_known(self.topics_metadata@, (#[trigger] topics@[x])@),
                forall|e: int|
                    0 <= e < plan@.len() ==> requested_has(
                        topics@,
                        k as int,
                        (#[trigger] plan@[e]).topic@,
                    ),
                forall|e1: int, e2: int|
                    #![auto]
                    0 <= e1 < e2 < plan@.len() ==> plan@[e1].topic@ != plan@[e2].topic@
                        || plan@[e1].node_id != plan@[e2].node_id,
                forall|ti: int, li: int|
                    #![auto]
                    0 <= ti < self.topics_metadata@.len() && requested_has(
                        topics@,
                        k as int,
                        self.topics_metadata@[ti].topic@,
                    ) && 0 <= li < self.topics_metadata@[ti].leaders@.len() && group_selected(
                        self.topics_metadata@[ti].leaders@[li],
                    ) ==> plan_covers(
                        plan@,
                        self.topics_metadata@[ti].topic@,
                        self.topics_metadata@[ti].leaders@[li].leader_id,
                    ),
            decreases topics@.len() - k,
        {
            let name = &topics[k];
            let dup = name_in_prefix(topics, k, name);
            if !dup {
                let ti = match self.lookup_topic(name) {
                    Option::None => {
                        proof {
                            assert(!topic_known(self.topics_metadata@, topics@[k as int]@));
                        }
                        return Result::Err(RouteError::NoRouteForTopic);
                    },
                    Option::Some(i) => i,
                };
                let groups_len = self.topics_metadata[ti].leaders.len();
                let ghost base = plan@.len();
                let mut li: usize = 0;
                while li < groups_len
                    invariant
                        li <= groups_len,
                        k < topics@.len(),
                        ti < self.topics_metadata@.len(),
                        groups_len == self.topics_metadata@[ti as int].leaders@.len(),
                        self.topics_metadata@[ti as int].topic@ == topics@[k as int]@,
                        name@ == topics@[k as int]@,
                        topics@[k as int]@.len() <= i16::MAX,
                        self.cache_wf(),
                        forall|e: int|
                            0 <= e < plan@.len() ==> plan_entry_valid(
                                self.topics_metadata@,
                                self.brokers@,
                                #[trigger] plan@[e],
                            ),
                        base <= plan@.len(),
                        !requested_has(topics@, k as int, name@),
                        forall|e: int|
                            0 <= e < base ==> requested_has(
                                topics@,
                                k as int,
                                (#[trigger] plan@[e]).topic@,
                            ),
                        forall|e: int|
                            base <= e < plan@.len() ==> (#[trigger] plan@[e]).topic@ == name@
                                && node_among(
                                self.topics_metadata@[ti as int].leaders@,
                                li as int,
                                plan@[e].node_id,
                            ),
                        forall|e1: int, e2: int|
                            #![auto]
                            0 <= e1 < e2 < plan@.len() ==> plan@[e1].topic@ != plan@[e2].topic@
                                || plan@[e1].node_id != plan@[e2].node_id,
                        forall|ti2: int, li2: int|
                            #![auto]
                            0 <= ti2 < self.topics_metadata@.len() && requested_has(
                                topics@,
                                k as int,
                                self.topics_metadata@[ti2].topic@,
                            ) && 0 <= li2 < self.topics_metadata@[ti2].leaders@.len()
                                && group_selected(self.topics_metadata@[ti2].leaders@[li2])
                                ==> plan_covers(
                                plan@,
                                self.topics_metadata@[ti2].topic@,
                                self.topics_metadata@[ti2].leaders@[li2].leader_id,
                            ),
                        forall|li2: int|
                            0 <= li2 < li && group_selected(
                                #[trigger] self.topics_metadata@[ti as int].leaders@[li2],
                            ) ==> plan_covers(
                                plan@,
                                self.topics_metadata@[ti as int].topic@,
                                self.topics_metadata@[ti as int].leaders@[li2].leader_id,
                            ),
                    decreases groups_len - li,
                {
                    let ghost plan0 = plan@;
                    let np = self.topics_metadata[ti].leaders[li].partitions.len();
                    if np > 0 && np <= 0x7fffffff {
                        let leader_id = self.topics_metadata[ti].leaders[li].leader_id;
                        let b = match self.broker_addr(leader_id) {
                            Option::Some(b) => b,
                            Option::None => {
                                proof {
                                    assert(has_broker(self.brokers@, leader_id));
                                    assert(false);
                                }
                                return Result::Err(RouteError::NoRouteForTopic);
                            },
                        };
                        let topic_bytes = name.clone();
                        let partitions = self.topics_metadata[ti].leaders[li].partitions.clone();
                        let mut pairs: Vec<(Vec<u8>, Vec<i32>)> = Vec::new();
                        let pair_name = name.clone();
                        let pair_parts = partitions.clone();
                        proof {
                            assert(pair_name@ == topics@[k as int]@);
                            assert(pair_parts@ == self.topics_metadata@[ti as int].leaders@[
                            li as int].partitions@);
                        }
                        pairs.push((pair_name, pair_parts));
                        proof {
                            assert(pairs@.len() == 1);
                            assert(pairs@[0].0@ == topics@[k as int]@);
                            assert(pairs@[0].1@ == self.topics_metadata@[ti as int].leaders@[
                            li as int].partitions@);
                            assert(forall|x: int|
                                0 <= x < pairs@.len() ==> (#[trigger] pairs@[x]).0@.len()
                                    <= i16::MAX && pairs@[x].1@.len() <= i32::MAX);
                        }
                        let request = FetchRequest::new(pairs);
                        let pe = FetchPlanEntry {
                            node_id: leader_id,
                            host: b.host,
                            port: b.port,
                            topic: topic_bytes,
                            partitions,
                            request,
                        };
                        proof {
                            assert(pe.request.topics@[0].topic.0@ == pe.topic@);
                            assert(self.topics_metadata@[ti as int].leaders@[li as int].leader_id
                                == pe.node_id && self.topics_metadata@[ti as int].leaders@[
                            li as int].partitions@ == pe.partitions@);
                            assert(plan_entry_valid(self.topics_metadata@, self.brokers@, pe));
                            lemma_plan_covers_push(plan0, pe);
                        }
                        plan.push(pe);
                        proof {
                            assert(plan@ == plan0.push(pe));
                            assert forall|e: int| 0 <= e < plan@.len() implies plan_entry_valid(
                                self.topics_metadata@,
                                self.brokers@,
                                #[trigger] plan@[e],
                            ) by {
                                if e < plan0.len() {
                                    assert(plan@[e] == plan0[e]);
                                } else {
                                    assert(plan@[e] == pe);
                                }
                            }
                            assert(plan@[plan@.len() - 1] == pe);
                            assert(plan_covers(
                                plan@,
                                self.topics_metadata@[ti as int].topic@,
                                self.topics_metadata@[ti as int].leaders@[li as int].leader_id,
                            ));
                            assert forall|e: int| 0 <= e < base implies requested_has(
                                topics@,
                                k as int,
                                (#[trigger] plan@[e]).topic@,
                            ) by {
                                assert(plan@[e] == plan0[e]);
                            }
                            assert forall|e: int| base <= e < plan@.len() implies (
                            #[trigger] plan@[e]).topic@ == name@ && node_among(
                                self.topics_metadata@[ti as int].leaders@,
                                li + 1,
                                plan@[e].node_id,
                            ) by {
                                if e < plan0.len() {
                                    assert(plan@[e] == plan0[e]);
                                    let m = choose|m: int|
                                        0 <= m < li && (
                                        #[trigger] self.topics_metadata@[ti as int].leaders@[
                                            m
                                        ]).leader_id == plan0[e].node_id;
                                    assert((#[trigger] self.topics_metadata@[ti as int].leaders@[
                                        m
                                    ]).leader_id == plan@[e].node_id);
                                } else {
                                    assert(plan@[e] == pe);
                                    assert((#[trigger] self.topics_metadata@[ti as int].leaders@[
                                        li as int
                                    ]).leader_id == pe.node_id);
                                }
                            }
                            assert forall|e1: int, e2: int|
                                #![auto]
                                0 <= e1 < e2 < plan@.len() implies plan@[e1].topic@ != plan@[
                                e2
                            ].topic@ || plan@[e1].node_id != plan@[e2].node_id by {
                                if e2 < plan0.len() {
                                    assert(plan@[e1] == plan0[e1]);
                                    assert(plan@[e2] == plan0[e2]);
                                } else {
                                    assert(plan@[e2] == pe);
                                    if e1 < base {
                                        assert(plan@[e1] == plan0[e1]);
                                        assert(requested_has(topics@, k as int, plan@[e1].topic@));
                                        if plan@[e1].topic@ == pe.topic@ {
                                            assert(requested_has(topics@, k as int, name@));
                                            assert(false);
                                        }
                                    } else {
                                        assert(plan@[e1] == plan0[e1]);
                                        let m = choose|m: int|
                                            0 <= m < li && (
                                            #[trigger] self.topics_metadata@[ti as int].leaders@[
                                                m
                                            ]).leader_id == plan0[e1].node_id;
                                        assert(self.topics_metadata@[ti as int].leaders@[
                                            m
                                        ].leader_id != self.topics_metadata@[ti as int].leaders@[
                                            li as int
                                        ].leader_id);
                                    }
                                }
                            }
                        }
                    } else {
                        proof {
                            assert forall|e: int| base <= e < plan@.len() implies (
                            #[trigger] plan@[e]).topic@ == name@ && node_among(
                                self.topics_metadata@[ti as int].leaders@,
                                li + 1,
                                plan@[e].node_id,
                            ) by {
                                let m = choose|m: int|
                                    0 <= m < li && (
                                    #[trigger] self.topics_metadata@[ti as int].leaders@[
                                        m
                                    ]).leader_id == plan@[e].node_id;
                                assert((#[trigger] self.topics_metadata@[ti as int].leaders@[
                                    m
                                ]).leader_id == plan@[e].node_id);
                            }
                        }
                    }
                    li = li + 1;
                }
                k = k + 1;
                proof {
                    assert forall|e: int| 0 <= e < plan@.len() implies requested_has(
                        topics@,
                        k as int,
                        (#[trigger] plan@[e]).topic@,
                    ) by {
                        if e < base {
                            assert(requested_has(topics@, k - 1, plan@[e].topic@));
                            let kk = choose|kk: int|
                                0 <= kk < k - 1 && (#[trigger] topics@[kk])@ == plan@[e].topic@;
                            assert((#[trigger] topics@[kk])@ == plan@[e].topic@);
                        } else {
                            assert(plan@[e].topic@ == name@);
                            assert((#[trigger] topics@[k - 1])@ == plan@[e].topic@);
                        }
                    }
                    assert forall|x: int| 0 <= x < k implies topic_known(
                        self.topics_metadata@,
                        (#[trigger] topics@[x])@,
                    ) by {
                        if x == k - 1 {
                            assert((#[trigger] self.topics_metadata@[ti as int]).topic@
                                == topics@[x]@);
                        }
                    }
                    assert forall|ti2: int, li2: int|
                        #![auto]
                        0 <= ti2 < self.topics_metadata@.len() && requested_has(
                            topics@,
                            k as int,
                            self.topics_metadata@[ti2].topic@,
                        ) && 0 <= li2 < self.topics_metadata@[ti2].leaders@.len() && group_selected(
                            self.topics_metadata@[ti2].leaders@[li2],
                        ) implies plan_covers(
                        plan@,
                        self.topics_metadata@[ti2].topic@,
                        self.topics_metadata@[ti2].leaders@[li2].leader_id,
                    ) by {
                        if requested_has(topics@, k - 1, self.topics_metadata@[ti2].topic@) {
                        } else {
                            let kk = choose|kk: int|
                                0 <= kk < k && (#[trigger] topics@[kk])@
                                    == self.topics_metadata@[ti2].topic@;
                            assert(kk == k - 1);
                            assert(self.topics_metadata@[ti2].topic@ == topics@[k - 1]@);
                            assert(self.topics_metadata@[ti as int].topic@ == topics@[k - 1]@);
                            assert(ti2 == ti as int);
                        }
                    }
                }

            } else {
                k = k + 1;
                proof {
                    assert forall|x: int| 0 <= x < k implies topic_known(
                        self.topics_metadata@,
                        (#[trigger] topics@[x])@,
                    ) by {
                        if x == k - 1 {
                            let kk = choose|kk: int|
                                0 <= kk < k - 1 && (#[trigger] topics@[kk])@ == topics@[x]@;
                            assert(topic_known(self.topics_metadata@, topics@[kk]@));
                        }
                    }
                    assert forall|e: int| 0 <= e < plan@.len() implies requested_has(
                        topics@,
                        k as int,
                        (#[trigger] plan@[e]).topic@,
                    ) by {
                        assert(requested_has(topics@, k - 1, plan@[e].topic@));
                        let kk = choose|kk: int|
                            0 <= kk < k - 1 && (#[trigger] topics@[kk])@ == plan@[e].topic@;
                        assert((#[trigger] topics@[kk])@ == plan@[e].topic@);
                    }
                    assert forall|ti2: int, li2: int|
                        #![auto]
                        0 <= ti2 < self.topics_metadata@.len() && requested_has(
                            topics@,
                            k as int,
                            self.topics_metadata@[ti2].topic@,
                        ) && 0 <= li2 < self.topics_metadata@[ti2].leaders@.len()
                            && group_selected(self.topics_metadata@[ti2].leaders@[li2]) implies
                        plan_covers(
                        plan@,
                        self.topics_metadata@[ti2].topic@,
                        self.topics_metadata@[ti2].leaders@[li2].leader_id,
                    ) by {
                        let kk = choose|kk: int|
                            0 <= kk < k && (#[trigger] topics@[kk])@
                                == self.topics_metadata@[ti2].topic@;
                        if kk == k - 1 {
                            let kk2 = choose|kk2: int|
                                0 <= kk2 < k - 1 && (#[trigger] topics@[kk2])@ == name@;
                            assert((#[trigger] topics@[kk2])@
                                == self.topics_metadata@[ti2].topic@);
                        }
                        assert(requested_has(
                            topics@,
                            k - 1,
                            self.topics_metadata@[ti2].topic@,
                        ));
                    }
                }
            }
        }
        proof {
            assert forall|x: int| 0 <= x < topics@.len() implies requested_has(
                topics@,
                topics@.len() as int,
                (#[trigger] topics@[x])@,
            ) by {
                assert(0 <= x < topics@.len() && topics@[x]@ == topics@[x]@);
            }
            assert(k == topics@.len());
        }
        Result::Ok(plan)
    }
}


} // verus!
