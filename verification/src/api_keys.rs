//! The numeric identifiers of the protocol's request types.

use vstd::prelude::*;

verus! {

#[derive(Debug, PartialEq, Eq, Hash, Clone, Copy)]
pub enum ApiKeys {
    Produce,
    Fetch,
    ListOffsets,
    Metadata,
    LeaderAndIsr,
    StopReplica,
    UpdateMetadata,
    ControlledShutdown,
    OffsetCommit,
    OffsetFetch,
    FindCoordinator,
    JoinGroup,
    Heartbeat,
    LeaveGroup,
    SyncGroup,
    DescribeGroups,
    ListGroups,
    SaslHandshake,
    ApiVersions,
    CreateTopics,
    DeleteTopics,
    DeleteRecords,
    InitProducerId,
    OffsetForLeaderEpoch,
    AddPartitionsToTxn,
    AddOffsetsToTxn,
    EndTxn,
    WriteTxnMarkers,
    TxnOffsetCommit,
    DescribeAcls,
    CreateAcls,
    DeleteAcls,
    DescribeConfigs,
    AlterConfigs,
    AlterReplicaLogDirs,
    DescribeLogDirs,
    SaslAuthenticate,
    CreatePartitions,
    CreateDelegationToken,
    RenewDelegationToken,
    ExpireDelegationToken,
    DescribeDelegationToken,
    DeleteGroups,
}

impl ApiKeys {
    /// The key's numeric value on the wire.
    pub open spec fn spec_code(self) -> i16 {
        match self {
            ApiKeys::Produce => 0,
            ApiKeys::Fetch => 1,
            ApiKeys::ListOffsets => 2,
            ApiKeys::Metadata => 3,
            ApiKeys::LeaderAndIsr => 4,
            ApiKeys::StopReplica => 5,
            ApiKeys::UpdateMetadata => 6,
            ApiKeys::ControlledShutdown => 7,
            ApiKeys::OffsetCommit => 8,
            ApiKeys::OffsetFetch => 9,
            ApiKeys::FindCoordinator => 10,
            ApiKeys::JoinGroup => 11,
            ApiKeys::Heartbeat => 12,
            ApiKeys::LeaveGroup => 13,
            ApiKeys::SyncGroup => 14,
            ApiKeys::DescribeGroups => 15,
            ApiKeys::ListGroups => 16,
            ApiKeys::SaslHandshake => 17,
            ApiKeys::ApiVersions => 18,
            ApiKeys::CreateTopics => 19,
            ApiKeys::DeleteTopics => 20,
            ApiKeys::DeleteRecords => 21,
            ApiKeys::InitProducerId => 22,
            ApiKeys::OffsetForLeaderEpoch => 23,
            ApiKeys::AddPartitionsToTxn => 24,
            ApiKeys::AddOffsetsToTxn => 25,
            ApiKeys::EndTxn => 26,
            ApiKeys::WriteTxnMarkers => 27,
            ApiKeys::TxnOffsetCommit => 28,
            ApiKeys::DescribeAcls => 29,
            ApiKeys::CreateAcls => 30,
            ApiKeys::DeleteAcls => 31,
            ApiKeys::DescribeConfigs => 32,
            ApiKeys::AlterConfigs => 33,
            ApiKeys::AlterReplicaLogDirs => 34,
            ApiKeys::DescribeLogDirs => 35,
            ApiKeys::SaslAuthenticate => 36,
            ApiKeys::CreatePartitions => 37,
            ApiKeys::CreateDelegationToken => 38,
            ApiKeys::RenewDelegationToken => 39,
            ApiKeys::ExpireDelegationToken => 40,
            ApiKeys::DescribeDelegationToken => 41,
            ApiKeys::DeleteGroups => 42,
        }
    }

    /// The key's numeric value on the wire.
    pub fn code(self) -> (r: i16)
        ensures
            r == self.spec_code(),
    {
        match self {
            ApiKeys::Produce => 0,
            ApiKeys::Fetch => 1,
            ApiKeys::ListOffsets => 2,
            ApiKeys::Metadata => 3,
            ApiKeys::LeaderAndIsr => 4,
            ApiKeys::StopReplica => 5,
            ApiKeys::UpdateMetadata => 6,
            ApiKeys::ControlledShutdown => 7,
            ApiKeys::OffsetCommit => 8,
            ApiKeys::OffsetFetch => 9,
            ApiKeys::FindCoordinator => 10,
            ApiKeys::JoinGroup => 11,
            ApiKeys::Heartbeat => 12,
            ApiKeys::LeaveGroup => 13,
            ApiKeys::SyncGroup => 14,
            ApiKeys::DescribeGroups => 15,
            ApiKeys::ListGroups => 16,
            ApiKeys::SaslHandshake => 17,
            ApiKeys::ApiVersions => 18,
            ApiKeys::CreateTopics => 19,
            ApiKeys::DeleteTopics => 20,
            ApiKeys::DeleteRecords => 21,
            ApiKeys::InitProducerId => 22,
            ApiKeys::OffsetForLeaderEpoch => 23,
            ApiKeys::AddPartitionsToTxn => 24,
            ApiKeys::AddOffsetsToTxn => 25,
            ApiKeys::EndTxn => 26,
            ApiKeys::WriteTxnMarkers => 27,
            ApiKeys::TxnOffsetCommit => 28,
            ApiKeys::DescribeAcls => 29,
            ApiKeys::CreateAcls => 30,
            ApiKeys::DeleteAcls => 31,
            ApiKeys::DescribeConfigs => 32,
            ApiKeys::AlterConfigs => 33,
            ApiKeys::AlterReplicaLogDirs => 34,
            ApiKeys::DescribeLogDirs => 35,
            ApiKeys::SaslAuthenticate => 36,
            ApiKeys::CreatePartitions => 37,
            ApiKeys::CreateDelegationToken => 38,
            ApiKeys::RenewDelegationToken => 39,
            ApiKeys::ExpireDelegationToken => 40,
            ApiKeys::DescribeDelegationToken => 41,
            ApiKeys::DeleteGroups => 42,
        }
    }
}

} // verus!
