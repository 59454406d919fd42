//! Decoder for the Kafka client/broker wire protocol, as seen by a passive
//! traffic observer: envelope decoding, topic and error-code extraction at
//! version-dependent offsets, request/response correlation and per-flow
//! performance counters.

pub mod info;
pub mod layout;
pub mod log;
pub mod perf;
pub mod text;
pub mod wire;

pub use info::{KafkaInfo, L7ProtocolSendLog, L7ResponseStatus, LogMessageType};
pub use log::{
    CacheUpdate, IpProtocol, KafkaError, KafkaLog, PacketDirection, ParseOutcome, ParseParam,
    RrtCacheEntry,
};
pub use perf::L7PerfStats;
