use kafka_wire::api_keys::ApiKeys;
use kafka_wire::api_versions::{ApiVersion, ApiVersionsResponse};
use kafka_wire::consumer_client::ConsumerClient;
use kafka_wire::kafka_client::KafkaClient;
use kafka_wire::kafka_error_codes::check_errors;
use kafka_wire::metadata::{BrokerMetadataResponse, MetadataResponse, PartitionMetadataResponse,
    TopicMetadataResponse};

fn metadata_with(
    brokers: Vec<(i32, &str, i32)>,
    topics: Vec<(&str, Vec<(i32, i32)>)>,
) -> MetadataResponse {
    MetadataResponse {
        throttle_time_ms: 0,
        brokers: brokers
            .into_iter()
            .map(|(node_id, host, port)| BrokerMetadataResponse {
                node_id,
                host: host.as_bytes().to_vec(),
                port,
                rack: None,
            })
            .collect(),
        cluster_id: None,
        controller_id: 1,
        topics: topics
            .into_iter()
            .map(|(name, partitions)| TopicMetadataResponse {
                error_code: 0,
                name: name.as_bytes().to_vec(),
                is_internal: false,
                partitions: partitions
                    .into_iter()
                    .map(|(partition_index, leader_id)| PartitionMetadataResponse {
                        error_code: 0,
                        partition_index,
                        leader_id,
                        replica_nodes: vec![leader_id],
                        isr_nodes: vec![leader_id],
                        offline_replicas: Vec::new(),
                    })
                    .collect(),
            })
            .collect(),
    }
}

#[test]
fn correlation_ids_strictly_increase() {
    let mut client = KafkaClient::new(vec![b"localhost:9092".to_vec()], b"c".to_vec());
    let a = client.correlation_id();
    let b = client.correlation_id();
    let c = client.correlation_id();
    assert!(a < b && b < c);
    assert_eq!(a, 2);
    assert_eq!(b, 3);
}

#[test]
fn api_keys_codes() {
    assert_eq!(ApiKeys::Produce.code(), 0);
    assert_eq!(ApiKeys::Fetch.code(), 1);
    assert_eq!(ApiKeys::Metadata.code(), 3);
    assert_eq!(ApiKeys::ApiVersions.code(), 18);
    assert_eq!(ApiKeys::CreateTopics.code(), 19);
}

#[test]
fn version_negotiation_intersects() {
    let mut client = KafkaClient::new(vec![b"h".to_vec()], b"c".to_vec());
    let response = ApiVersionsResponse {
        error_code: 0,
        api_versions: vec![
            ApiVersion { api_key: 18, min_version: 0, max_version: 3 },
            ApiVersion { api_key: 1, min_version: 4, max_version: 11 },
            ApiVersion { api_key: 0, min_version: 7, max_version: 9 },
        ],
        throttle_time_ms: 0,
    };
    client.update_api_versions(&response);
    assert_eq!(client.negotiated_version(18).unwrap(), 1);
    assert_eq!(client.negotiated_version(1).unwrap(), 8);
    // the client's Produce version 6 is below the broker's minimum
    assert_eq!(client.negotiated_version(0).unwrap_err().code, 35);
    // no table entry for ListOffsets
    assert_eq!(client.negotiated_version(2).unwrap_err().code, 35);
    // no codec for an unsupported key
    assert_eq!(client.negotiated_version(4).unwrap_err().code, 35);
}

#[test]
fn cache_leaders_are_known_brokers() {
    let mut client = KafkaClient::new(vec![b"h".to_vec()], b"c".to_vec());
    // partition 1 of "ailing" names leader 9, which is not a broker: that
    // partition is dropped, the healthy partition 0 stays routable, and
    // every cached leader is a known broker
    let m = metadata_with(
        vec![(1, "h1", 9092)],
        vec![("good", vec![(0, 1)]), ("ailing", vec![(0, 1), (1, 9)])],
    );
    client.update_topics_metadata(&m);
    for t in &client.topics_metadata {
        for g in &t.leaders {
            assert!(client.broker_addr(g.leader_id).is_some());
        }
    }
    assert!(client.lookup_topic(&b"good".to_vec()).is_some());
    assert!(client.lookup_topic(&b"ailing".to_vec()).is_some());
    let plan = client.plan_fetch(&vec![b"ailing".to_vec()]).unwrap();
    assert_eq!(plan.len(), 1);
    assert_eq!(plan[0].node_id, 1);
    assert_eq!(plan[0].partitions, vec![0]);
}

#[test]
fn refresh_replaces_brokers_and_topics() {
    let mut client = KafkaClient::new(vec![b"h".to_vec()], b"c".to_vec());
    client.update_topics_metadata(&metadata_with(vec![(1, "h1", 9092)], vec![("a", vec![(0, 1)])]));
    client.update_topics_metadata(&metadata_with(vec![(2, "h2", 9093)], vec![("b", vec![(0, 2)])]));
    assert!(client.broker_addr(1).is_none());
    let b = client.broker_addr(2).unwrap();
    assert_eq!(b.host, b"h2".to_vec());
    assert_eq!(b.port, 9093);
    assert!(client.lookup_topic(&b"a".to_vec()).is_none());
    assert!(client.lookup_topic(&b"b".to_vec()).is_some());
}

#[test]
fn fetch_fan_out_groups_partitions_by_leader() {
    // brokers 1, 2, 3; topic "t" with partition leaders {0 -> 1,
    // 1 -> 1, 2 -> 2}: exactly two requests, none to broker 3
    let mut client = KafkaClient::new(vec![b"h1:9092".to_vec()], b"c".to_vec());
    let m = metadata_with(
        vec![(1, "h1", 9092), (2, "h2", 9092), (3, "h3", 9092)],
        vec![("t", vec![(0, 1), (1, 1), (2, 2)])],
    );
    client.update_topics_metadata(&m);
    let plan = client.plan_fetch(&vec![b"t".to_vec()]).unwrap();
    assert_eq!(plan.len(), 2);
    let to_1 = plan.iter().find(|e| e.node_id == 1).unwrap();
    assert_eq!(to_1.host, b"h1".to_vec());
    assert_eq!(to_1.port, 9092);
    assert_eq!(to_1.partitions, vec![0, 1]);
    let to_2 = plan.iter().find(|e| e.node_id == 2).unwrap();
    assert_eq!(to_2.host, b"h2".to_vec());
    assert_eq!(to_2.partitions, vec![2]);
    assert!(plan.iter().all(|e| e.node_id != 3));
    // each planned request carries exactly its one topic and partitions
    assert_eq!(to_1.request.topics.len(), 1);
    assert_eq!(to_1.request.topics[0].topic.0, b"t".to_vec());
    let ps: Vec<i32> = to_1.request.topics[0].partitions.iter().map(|p| p.partition).collect();
    assert_eq!(ps, vec![0, 1]);
}

#[test]
fn fetch_plan_dedupes_repeated_topics() {
    // a topic requested twice is fetched once: one request per
    // (topic, leader) pair, never duplicated
    let mut client = KafkaClient::new(vec![b"h".to_vec()], b"c".to_vec());
    client.update_topics_metadata(&metadata_with(
        vec![(1, "h1", 9092), (2, "h2", 9092)],
        vec![("t", vec![(0, 1), (1, 2)])],
    ));
    let plan = client.plan_fetch(&vec![b"t".to_vec(), b"t".to_vec()]).unwrap();
    assert_eq!(plan.len(), 2);
    let mut nodes: Vec<i32> = plan.iter().map(|e| e.node_id).collect();
    nodes.sort();
    assert_eq!(nodes, vec![1, 2]);
}

#[test]
fn fetch_plan_fails_on_unknown_topic() {
    let mut client = KafkaClient::new(vec![b"h".to_vec()], b"c".to_vec());
    client.update_topics_metadata(&metadata_with(vec![(1, "h1", 9092)], vec![("t", vec![(0, 1)])]));
    assert!(client.plan_fetch(&vec![b"t".to_vec()]).is_ok());
    assert!(client.plan_fetch(&vec![b"missing".to_vec()]).is_err());
}

#[test]
fn round_robin_cycles_brokers() {
    let mut client = KafkaClient::new(vec![b"h".to_vec()], b"c".to_vec());
    assert!(client.next_broker().is_none());
    client.update_topics_metadata(&metadata_with(
        vec![(1, "h1", 9092), (2, "h2", 9092)],
        Vec::new(),
    ));
    let a = client.next_broker().unwrap();
    let b = client.next_broker().unwrap();
    let c = client.next_broker().unwrap();
    assert_eq!(a.node_id, 1);
    assert_eq!(b.node_id, 2);
    assert_eq!(c.node_id, 1);
}

#[test]
fn consumer_cache_queries() {
    let mut consumer = ConsumerClient::new(vec![b"h".to_vec()]);
    assert!(!consumer.topic_metadata_in_cache(&b"t".to_vec()));
    consumer.kafka_client.update_topics_metadata(&metadata_with(
        vec![(1, "h1", 9092)],
        vec![("t", vec![(0, 1)])],
    ));
    assert!(consumer.topic_metadata_in_cache(&b"t".to_vec()));
    // a partition-routed call must refresh when any topic is absent, so
    // the guard is true only when every requested topic is cached
    assert!(consumer.topics_metadata_in_cache(&vec![b"t".to_vec()]));
    assert!(!consumer.topics_metadata_in_cache(&vec![b"x".to_vec(), b"t".to_vec()]));
    assert!(!consumer.topics_metadata_in_cache(&vec![b"x".to_vec()]));
}

#[test]
fn produce_routes_to_partition_leader() {
    let mut consumer = ConsumerClient::new(vec![b"h".to_vec()]);
    consumer.kafka_client.update_topics_metadata(&metadata_with(
        vec![(1, "h1", 9092), (2, "h2", 9092)],
        vec![("t", vec![(0, 1), (1, 2)])],
    ));
    let leader = consumer.produce_leader(&b"t".to_vec(), 1).unwrap();
    assert_eq!(leader.node_id, 2);
    assert_eq!(leader.host, b"h2".to_vec());
    assert!(consumer.produce_leader(&b"t".to_vec(), 5).is_none());
    assert!(consumer.produce_leader(&b"u".to_vec(), 0).is_none());
}

#[test]
fn error_codes_surface_as_typed_failures() {
    assert!(check_errors(0).is_ok());
    let e = check_errors(6).unwrap_err();
    assert_eq!(e.code, 6);
    assert!(e.is_retryable);
    assert_eq!(e.error, "NOT_LEADER_OR_FOLLOWER");
    let e = check_errors(35).unwrap_err();
    assert_eq!(e.code, 35);
    assert!(!e.is_retryable);
    let e = check_errors(99).unwrap_err();
    assert_eq!(e.code, 99);
}
