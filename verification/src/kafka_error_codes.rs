//! Typed protocol errors: a non-zero `error_code` in a response body
//! becomes a `KafkaError` surfaced to the caller.

use vstd::prelude::*;

verus! {

/// A broker-reported error: its numeric code, its symbolic name, a
/// description, and whether a retry can help.
#[derive(Debug, Clone)]
pub struct KafkaError {
    pub code: i16,
    pub error: String,
    pub description: String,
    pub is_retryable: bool,
}

/// The codes on which a retry, after a metadata refresh or a backoff, can
/// succeed.
pub open spec fn spec_is_retryable(code: i16) -> bool {
    code == 3 || code == 5 || code == 6 || code == 7 || code == 13 || code == 15
}

/// A `KafkaError` with the given code, name and description.
pub fn kafka_error(code: i16, error: &str, description: &str) -> (r: KafkaError)
    ensures
        r.code == code,
        r.error@ == error@,
        r.description@ == description@,
        r.is_retryable == spec_is_retryable(code),
{
    KafkaError {
        code,
        error: error.to_string(),
        description: description.to_string(),
        is_retryable: code == 3 || code == 5 || code == 6 || code == 7 || code == 13 || code
            == 15,
    }
}

/// Ok exactly on code 0; any other code becomes a typed error carrying
/// that code and its retryability.
pub fn check_errors(error_code: i16) -> (r: Result<(), KafkaError>)
    ensures
        error_code == 0 <==> r is Ok,
        r matches Result::Err(e) ==> e.code == error_code && e.is_retryable == spec_is_retryable(
            error_code,
        ),
{
    if error_code == 0 {
        return Result::Ok(());
    }
    let e = match error_code {
        -1 => kafka_error(
            error_code,
            "UNKNOWN_SERVER_ERROR",
            "The server experienced an unexpected error when processing the request.",
        ),
        1 => kafka_error(
            error_code,
            "OFFSET_OUT_OF_RANGE",
            "The requested offset is not within the range of offsets maintained by the server.",
        ),
        2 => kafka_error(
            error_code,
            "CORRUPT_MESSAGE",
            "This message has failed its CRC checksum or is otherwise corrupt.",
        ),
        3 => kafka_error(
            error_code,
            "UNKNOWN_TOPIC_OR_PARTITION",
            "This server does not host this topic-partition.",
        ),
        5 => kafka_error(
            error_code,
            "LEADER_NOT_AVAILABLE",
            "There is no leader for this topic-partition as we are in the middle of a leadership election.",
        ),
        6 => kafka_error(
            error_code,
            "NOT_LEADER_OR_FOLLOWER",
            "The broker is not the current leader of the partition.",
        ),
        7 => kafka_error(error_code, "REQUEST_TIMED_OUT", "The request timed out."),
        13 => kafka_error(
            error_code,
            "NETWORK_EXCEPTION",
            "The server disconnected before a response was received.",
        ),
        15 => kafka_error(
            error_code,
            "COORDINATOR_NOT_AVAILABLE",
            "The coordinator is not available.",
        ),
        35 => kafka_error(
            error_code,
            "UNSUPPORTED_VERSION",
            "The version of API is not supported.",
        ),
        36 => kafka_error(
            error_code,
            "TOPIC_ALREADY_EXISTS",
            "Topic with this name already exists.",
        ),
        37 => kafka_error(error_code, "INVALID_PARTITIONS", "Number of partitions is below 1."),
        38 => kafka_error(
            error_code,
            "INVALID_REPLICATION_FACTOR",
            "Replication factor is below 1 or larger than the number of available brokers.",
        ),
        _ => kafka_error(error_code, "UNKNOWN", "An error code without a local description."),
    };
    Result::Err(e)
}

} // verus!
