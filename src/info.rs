//! The record decoded from one payload, and how two partial records of the
//! same exchange are combined.
use crate::text::{decimal, versioned_name};
use vstd::prelude::*;
use vstd::string::*;
use vstd::utf8::is_ascii_chars;

verus! {

/// Largest operation kind that is recognised.
pub const API_KEY_MAX: u16 = 67;

/// Which side of an exchange a record was decoded from.
#[derive(Debug, Clone, Copy, PartialEq, Eq, Structural)]
pub enum LogMessageType {
    Request,
    Response,
    Other,
}

impl Default for LogMessageType {
    fn default() -> (r: Self)
        ensures
            r == LogMessageType::Other,
    {
        LogMessageType::Other
    }
}

/// Outcome of an exchange; `Unknown` until it is resolved.
#[derive(Debug, Clone, Copy, PartialEq, Eq, Structural)]
pub enum L7ResponseStatus {
    Unknown,
    Success,
    ServerError,
}

impl Default for L7ResponseStatus {
    fn default() -> (r: Self)
        ensures
            r == L7ResponseStatus::Unknown,
    {
        L7ResponseStatus::Unknown
    }
}

/// The status that an error code stands for: zero is success, anything else
/// a server error.
pub open spec fn status_of(code: i16) -> L7ResponseStatus {
    if code == 0 {
        L7ResponseStatus::Success
    } else {
        L7ResponseStatus::ServerError
    }
}

/// One decoded request or response, possibly completed by its peer.
#[derive(Debug, Clone)]
pub struct KafkaInfo {
    pub msg_type: LogMessageType,
    pub is_tls: bool,
    pub correlation_id: u32,
    // request
    pub req_msg_size: Option<u32>,
    pub api_version: u16,
    pub api_key: u16,
    pub client_id: String,
    pub topics: Option<String>,
    // response
    pub resp_msg_size: Option<u32>,
    pub status: L7ResponseStatus,
    pub status_code: Option<i16>,
    pub rrt: u64,
}

/// The name of an operation kind; empty past the last named one.
pub open spec fn command_name(api_key: u16) -> Seq<char> {
    match api_key {
        0 => "Produce"@,
        1 => "Fetch"@,
        2 => "ListOffsets"@,
        3 => "Metadata"@,
        4 => "LeaderAndIsr"@,
        5 => "StopReplica"@,
        6 => "UpdateMetadata"@,
        7 => "ControlledShutdown"@,
        8 => "OffsetCommit"@,
        9 => "OffsetFetch"@,
        10 => "FindCoordinator"@,
        11 => "JoinGroup"@,
        12 => "Heartbeat"@,
        13 => "LeaveGroup"@,
        14 => "SyncGroup"@,
        15 => "DescribeGroups"@,
        16 => "ListGroups"@,
        17 => "SaslHandshake"@,
        18 => "ApiVersions"@,
        19 => "CreateTopics"@,
        20 => "DeleteTopics"@,
        21 => "DeleteRecords"@,
        22 => "InitProducerId"@,
        23 => "OffsetForLeaderEpoch"@,
        24 => "AddPartitionsToTxn"@,
        25 => "AddOffsetsToTxn"@,
        26 => "EndTxn"@,
        27 => "WriteTxnMarkers"@,
        28 => "TxnOffsetCommit"@,
        29 => "DescribeAcls"@,
        30 => "CreateAcls"@,
        31 => "DeleteAcls"@,
        32 => "DescribeConfigs"@,
        33 => "AlterConfigs"@,
        34 => "AlterReplicaLogDirs"@,
        35 => "DescribeLogDirs"@,
        36 => "SaslAuthenticate"@,
        37 => "CreatePartitions"@,
        38 => "CreateDelegationToken"@,
        39 => "RenewDelegationToken"@,
        40 => "ExpireDelegationToken"@,
        41 => "DescribeDelegationToken"@,
        42 => "DeleteGroups"@,
        43 => "ElectLeaders"@,
        44 => "IncrementalAlterConfigs"@,
        45 => "AlterPartitionReassignments"@,
        46 => "ListPartitionReassignments"@,
        47 => "OffsetDelete"@,
        48 => "DescribeClientQuotas"@,
        49 => "AlterClientQuotas"@,
        50 => "DescribeUserScramCredentials"@,
        51 => "AlterUserScramCredentials"@,
        52 => "AlterIsr"@,
        53 => "UpdateFeatures"@,
        54 => "DescribeCluster"@,
        55 => "DescribeProducers"@,
        56 => "DescribeTransactions"@,
        57 => "ListTransactions"@,
        58 => "AllocateProducerIds"@,
        _ => ""@,
    }
}

/// `a` completed by what `b` carries: the response length only where `a` has
/// none, the status where `b`'s is resolved, the code and the topic where
/// `b` has one.
pub open spec fn merged(a: KafkaInfo, b: KafkaInfo) -> KafkaInfo {
    KafkaInfo {
        resp_msg_size: if a.resp_msg_size is None {
            b.resp_msg_size
        } else {
            a.resp_msg_size
        },
        status: if b.status != L7ResponseStatus::Unknown {
            b.status
        } else {
            a.status
        },
        status_code: if b.status_code is Some {
            b.status_code
        } else {
            a.status_code
        },
        topics: if b.topics is Some {
            b.topics
        } else {
            a.topics
        },
        ..a
    }
}

impl KafkaInfo {
    /// Every field holds its default: nothing decoded yet.
    pub open spec fn is_default(self) -> bool {
        &&& self.msg_type == LogMessageType::Other
        &&& !self.is_tls
        &&& self.correlation_id == 0
        &&& self.req_msg_size is None
        &&& self.api_version == 0
        &&& self.api_key == 0
        &&& self.client_id@.len() == 0
        &&& self.topics is None
        &&& self.resp_msg_size is None
        &&& self.status == L7ResponseStatus::Unknown
        &&& self.status_code is None
        &&& self.rrt == 0
    }

    /// A recognised operation kind and a non-empty ASCII client identifier.
    pub open spec fn is_valid(self) -> bool {
        &&& self.api_key <= API_KEY_MAX
        &&& self.client_id@.len() > 0
        &&& is_ascii_chars(self.client_id@)
    }

    pub fn merge(&mut self, other: Self)
        ensures
            *final(self) == merged(*old(self), other),
    {
        if self.resp_msg_size.is_none() {
            self.resp_msg_size = other.resp_msg_size;
        }
        if other.status != L7ResponseStatus::Unknown {
            self.status = other.status;
        }
        if other.status_code.is_some() {
            self.status_code = other.status_code;
        }
        if other.topics.is_some() {
            self.topics = other.topics;
        }
    }

    pub fn check(&self) -> (r: bool)
        ensures
            r == self.is_valid(),
    {
        if self.api_key > API_KEY_MAX {
            return false;
        }
        !self.client_id.as_str().is_empty() && self.client_id.is_ascii()
    }

    pub fn get_command(&self) -> (r: &'static str)
        ensures
            r@ == command_name(self.api_key),
    {
        match self.api_key {
            0 => "Produce",
            1 => "Fetch",
            2 => "ListOffsets",
            3 => "Metadata",
            4 => "LeaderAndIsr",
            5 => "StopReplica",
            6 => "UpdateMetadata",
            7 => "ControlledShutdown",
            8 => "OffsetCommit",
            9 => "OffsetFetch",
            10 => "FindCoordinator",
            11 => "JoinGroup",
            12 => "Heartbeat",
            13 => "LeaveGroup",
            14 => "SyncGroup",
            15 => "DescribeGroups",
            16 => "ListGroups",
            17 => "SaslHandshake",
            18 => "ApiVersions",
            19 => "CreateTopics",
            20 => "DeleteTopics",
            21 => "DeleteRecords",
            22 => "InitProducerId",
            23 => "OffsetForLeaderEpoch",
            24 => "AddPartitionsToTxn",
            25 => "AddOffsetsToTxn",
            26 => "EndTxn",
            27 => "WriteTxnMarkers",
            28 => "TxnOffsetCommit",
            29 => "DescribeAcls",
            30 => "CreateAcls",
            31 => "DeleteAcls",
            32 => "DescribeConfigs",
            33 => "AlterConfigs",
            34 => "AlterReplicaLogDirs",
            35 => "DescribeLogDirs",
            36 => "SaslAuthenticate",
            37 => "CreatePartitions",
            38 => "CreateDelegationToken",
            39 => "RenewDelegationToken",
            40 => "ExpireDelegationToken",
            41 => "DescribeDelegationToken",
            42 => "DeleteGroups",
            43 => "ElectLeaders",
            44 => "IncrementalAlterConfigs",
            45 => "AlterPartitionReassignments",
            46 => "ListPartitionReassignments",
            47 => "OffsetDelete",
            48 => "DescribeClientQuotas",
            49 => "AlterClientQuotas",
            50 => "DescribeUserScramCredentials",
            51 => "AlterUserScramCredentials",
            52 => "AlterIsr",
            53 => "UpdateFeatures",
            54 => "DescribeCluster",
            55 => "DescribeProducers",
            56 => "DescribeTransactions",
            57 => "ListTransactions",
            58 => "AllocateProducerIds",
            _ => "",
        }
    }
}

impl Default for KafkaInfo {
    fn default() -> (r: Self)
        ensures
            r.is_default(),
    {
        KafkaInfo {
            msg_type: LogMessageType::Other,
            is_tls: false,
            correlation_id: 0,
            req_msg_size: None,
            api_version: 0,
            api_key: 0,
            client_id: String::new(),
            topics: None,
            resp_msg_size: None,
            status: L7ResponseStatus::Unknown,
            status_code: None,
            rrt: 0,
        }
    }
}

/// The fields of a record as they are handed to the log output.
#[derive(Debug, Clone)]
pub struct L7ProtocolSendLog {
    pub req_len: Option<u32>,
    pub resp_len: Option<u32>,
    /// Operation name and version, as in `Fetch_v7`.
    pub req_type: String,
    /// The topic, or empty.
    pub resource: String,
    pub status: L7ResponseStatus,
    pub code: Option<i32>,
    pub request_id: Option<u32>,
}

impl L7ProtocolSendLog {
    pub fn from_info(f: KafkaInfo) -> (r: Self)
        ensures
            r.req_len == f.req_msg_size,
            r.resp_len == f.resp_msg_size,
            r.req_type@ == command_name(f.api_key) + "_v"@ + decimal(f.api_version as nat),
            r.resource@ == match f.topics {
                Some(t) => t@,
                None => Seq::<char>::empty(),
            },
            r.status == f.status,
            r.code == Some(
                match f.status_code {
                    Some(c) => c as i32,
                    None => 0i32,
                },
            ),
            r.request_id == Some(f.correlation_id),
    {
        let req_type = versioned_name(f.get_command(), f.api_version);
        let resource = match f.topics {
            Some(t) => t,
            None => String::new(),
        };
        let code: i32 = match f.status_code {
            Some(c) => c as i32,
            None => 0,
        };
        L7ProtocolSendLog {
            req_len: f.req_msg_size,
            resp_len: f.resp_msg_size,
            req_type,
            resource,
            status: f.status,
            code: Some(code),
            request_id: Some(f.correlation_id),
        }
    }
}

/// Merging a record with one that carries nothing decoded leaves it as it
/// was.
pub proof fn lemma_merge_default_is_identity(record: KafkaInfo, empty: KafkaInfo)
    requires
        empty.is_default(),
    ensures
        merged(record, empty) == record,
{
}

} // verus!
