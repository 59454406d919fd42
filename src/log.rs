//! The parser: protocol detection, envelope decoding, topic and error-code
//! extraction, and correlation of a request with its response.
use crate::info::{status_of, KafkaInfo, L7ResponseStatus, LogMessageType, API_KEY_MAX};
use crate::layout::{
    errcode_fixed_offset, errcode_offset, topic_fixed_offset, topic_offset, KAFKA_FETCH,
    KAFKA_PRODUCE,
};
use crate::perf::{zero_stats, L7PerfStats};
use crate::text::{lossy_text, utf16be_has_errors, utf16be_malformed, utf8_lossy};
use crate::wire::{
    ascii_bytes, ascii_chars, be_i16, be_u16, be_u32, is_ascii_bytes, read_i16_be, read_u16_be,
    read_u32_be,
};
use vstd::prelude::*;
use vstd::slice::slice_subrange;

verus! {

/// Length of the request envelope up to the client identifier.
pub const KAFKA_REQ_HEADER_LEN: usize = 14;

/// Length of the response envelope.
pub const KAFKA_RESP_HEADER_LEN: usize = 8;

/// Size of the leading frame-length field.
pub const MSG_LEN_SIZE: usize = 4;

/// Why a payload gave no record.
#[derive(Debug, Clone, Copy, PartialEq, Eq, Structural)]
pub enum KafkaError {
    /// The envelope is too short or malformed.
    ParseFailed,
    /// The flow is not carried over TCP.
    InvalidTransport,
}

/// Transport protocol of a flow.
#[derive(Debug, Clone, Copy, PartialEq, Eq, Structural)]
pub enum IpProtocol {
    Tcp,
    Udp,
}

/// Direction of a payload within its flow.
#[derive(Debug, Clone, Copy, PartialEq, Eq, Structural)]
pub enum PacketDirection {
    ClientToServer,
    ServerToClient,
}

/// What the caller knows of the payload being parsed.
#[derive(Debug, Clone, Copy, PartialEq, Eq, Structural)]
pub struct ParseParam {
    pub l4_protocol: IpProtocol,
    pub direction: PacketDirection,
    /// The payload was captured as is, not already decoded by an
    /// intermediate mechanism.
    pub raw_protocol: bool,
    /// When the payload was observed.
    pub time: u64,
    /// Longest delay between a request and its response.
    pub rrt_timeout: u64,
    /// Performance counters are wanted.
    pub parse_perf: bool,
    /// A record is wanted.
    pub parse_log: bool,
}

/// What the correlation cache keeps of an observed message.
#[derive(Debug, Clone, Copy, PartialEq, Eq, Structural)]
pub struct RrtCacheEntry {
    pub msg_type: LogMessageType,
    pub time: u64,
    pub api_key: u16,
    pub api_version: u16,
    pub code: i16,
}

/// How the correlation cache is to change after a message.
#[derive(Debug, Clone, Copy, PartialEq, Eq, Structural)]
pub enum CacheUpdate {
    /// No peer was paired: keep this message for its peer.
    Insert(RrtCacheEntry),
    /// The cached peer was paired: drop it.
    Remove,
}

/// The result of correlating a parsed message.
#[derive(Debug, Clone)]
pub struct ParseOutcome {
    /// The record, where one was asked for.
    pub record: Option<KafkaInfo>,
    pub cache_update: CacheUpdate,
}

/// The parser of one flow, with the flow's counters.
#[derive(Debug, Clone, Copy)]
pub struct KafkaLog {
    pub perf_stats: Option<L7PerfStats>,
}

impl Default for KafkaLog {
    fn default() -> (r: Self)
        ensures
            r.perf_stats is None,
    {
        KafkaLog::new()
    }
}

// ---------------------------------------------------------------------------
// Topic names
pub open spec fn text_of(o: Option<String>) -> Option<Seq<char>> {
    match o {
        Some(s) => Some(s@),
        None => None,
    }
}

pub open spec fn nonneg(x: int) -> int {
    if x > 0 {
        x
    } else {
        0
    }
}

/// A compact string at `off`: one length byte `n` and `n` bytes. The span,
/// length byte included, is returned as text where it decodes as UTF-16BE
/// without error.
pub open spec fn compact_name(p: Seq<u8>, off: int) -> Option<Seq<char>> {
    if 0 <= off < p.len() && off + 1 + p[off] <= p.len() {
        let span = p.subrange(off, off + 1 + p[off]);
        if utf16be_malformed(span) {
            None
        } else {
            Some(utf8_lossy(span))
        }
    } else {
        None
    }
}

/// A string at `off` with a 16-bit big-endian length prefix.
pub open spec fn plain_name(p: Seq<u8>, off: int) -> Option<Seq<char>> {
    if 0 <= off && off + 2 <= p.len() && off + 2 + be_u16(p, off) <= p.len() {
        Some(utf8_lossy(p.subrange(off + 2, off + 2 + be_u16(p, off))))
    } else {
        None
    }
}

/// The topic of a request, from the bytes that follow its client identifier.
pub open spec fn topic_name(api_key: u16, api_version: u16, p: Seq<u8>) -> Option<Seq<char>> {
    match topic_offset(api_key, api_version) {
        None => None,
        Some(base) => if api_key == KAFKA_PRODUCE {
            if api_version == 9 {
                if p.len() == 0 {
                    None
                } else {
                    compact_name(p, base + p[0])
                }
            } else if api_version >= 3 {
                if p.len() < 2 {
                    None
                } else {
                    plain_name(p, base + nonneg(be_i16(p, 0)))
                }
            } else {
                plain_name(p, base)
            }
        } else if api_version == 12 {
            compact_name(p, base)
        } else {
            plain_name(p, base)
        },
    }
}

fn compact_name_at(p: &[u8], off: usize) -> (r: Option<String>)
    requires
        off <= 65536,
    ensures
        text_of(r) == compact_name(p@, off as int),
{
    if off >= p.len() {
        return None;
    }
    let end = off + 1 + p[off] as usize;
    if end > p.len() {
        return None;
    }
    let span = slice_subrange(p, off, end);
    if utf16be_has_errors(span) {
        None
    } else {
        Some(lossy_text(span))
    }
}

fn plain_name_at(p: &[u8], off: usize) -> (r: Option<String>)
    requires
        off <= 65536,
    ensures
        text_of(r) == plain_name(p@, off as int),
{
    if off + 2 > p.len() {
        return None;
    }
    let len = read_u16_be(p, off) as usize;
    if off + 2 + len > p.len() {
        return None;
    }
    Some(lossy_text(slice_subrange(p, off + 2, off + 2 + len)))
}

// ---------------------------------------------------------------------------
// Error codes
/// The error code embedded in a response body, for the operation kind and
/// version of its request.
pub open spec fn embedded_code(api_key: u16, api_version: u16, p: Seq<u8>) -> Option<i16> {
    match errcode_offset(api_key, api_version) {
        None => None,
        Some(base) => if p.len() < base || (api_key == KAFKA_FETCH && api_version >= 12) {
            None
        } else {
            let off = base + if api_key == KAFKA_PRODUCE || api_version == 0 {
                nonneg(be_i16(p, 4))
            } else if api_version <= 6 {
                nonneg(be_i16(p, 10))
            } else {
                0
            };
            if off + 2 <= p.len() {
                Some(be_i16(p, off) as i16)
            } else {
                None
            }
        },
    }
}

/// The code that resolves an exchange: the one given, else the one embedded
/// in the body.
pub open spec fn resolved_code(api_key: u16, api_version: u16, p: Seq<u8>, code: Option<i16>) -> Option<i16> {
    match code {
        Some(c) => Some(c),
        None => embedded_code(api_key, api_version, p),
    }
}

/// The record once its status is resolved: a given code sets the status
/// alone; a code read from the body sets the code and the status.
pub open spec fn with_status(
    info: KafkaInfo,
    api_key: u16,
    api_version: u16,
    p: Seq<u8>,
    code: Option<i16>,
) -> KafkaInfo {
    match code {
        Some(c) => KafkaInfo { status: status_of(c), ..info },
        None => match embedded_code(api_key, api_version, p) {
            Some(c) => KafkaInfo { status_code: Some(c), status: status_of(c), ..info },
            None => info,
        },
    }
}

pub open spec fn map_stats(
    s: Option<L7PerfStats>,
    f: spec_fn(L7PerfStats) -> L7PerfStats,
) -> Option<L7PerfStats> {
    match s {
        Some(x) => Some(f(x)),
        None => None,
    }
}

/// The counters once a code is resolved: a non-zero code is a server error.
pub open spec fn stats_with_code(s: Option<L7PerfStats>, code: Option<i16>) -> Option<L7PerfStats> {
    match code {
        Some(c) => if c != 0 {
            map_stats(s, |x: L7PerfStats| x.with_server_error())
        } else {
            s
        },
        None => s,
    }
}

// ---------------------------------------------------------------------------
// Envelopes
/// Length of the client identifier declared in a request envelope.
pub open spec fn client_id_len(p: Seq<u8>) -> int {
    be_u16(p, 12)
}

/// The client identifier's bytes.
pub open spec fn client_id_bytes(p: Seq<u8>) -> Seq<u8> {
    p.subrange(14, 14 + client_id_len(p))
}

/// A request envelope decodes: it holds the fixed fields and the whole
/// client identifier, which is ASCII; in strict mode the frame length also
/// matches the payload and the client identifier is not empty.
pub open spec fn request_decodes(p: Seq<u8>, strict: bool) -> bool {
    &&& p.len() >= 14
    &&& p.len() >= 14 + client_id_len(p)
    &&& strict ==> be_u32(p, 0) == p.len() - 4
    &&& strict ==> client_id_len(p) > 0
    &&& ascii_bytes(client_id_bytes(p))
}

/// `i` holds the fields of the request envelope `p`.
pub open spec fn request_envelope(i: KafkaInfo, p: Seq<u8>) -> bool {
    &&& i.msg_type == LogMessageType::Request
    &&& i.req_msg_size == Some(be_u32(p, 0) as u32)
    &&& i.api_key as int == be_u16(p, 4)
    &&& i.api_version as int == be_u16(p, 6)
    &&& i.correlation_id as int == be_u32(p, 8)
    &&& i.client_id@ == ascii_chars(client_id_bytes(p))
    &&& text_of(i.topics) == topic_name(
        i.api_key,
        i.api_version,
        p.subrange(14 + client_id_len(p), p.len() as int),
    )
}

/// `i` is `old` with the fields of the request envelope `p` filled in.
pub open spec fn request_fields(i: KafkaInfo, old: KafkaInfo, p: Seq<u8>) -> bool {
    &&& request_envelope(i, p)
    &&& i.is_tls == old.is_tls
    &&& i.resp_msg_size == old.resp_msg_size
    &&& i.status == old.status
    &&& i.status_code == old.status_code
    &&& i.rrt == old.rrt
}

/// `i` is `old` with the fields of the response envelope `p` filled in.
pub open spec fn response_fields(i: KafkaInfo, old: KafkaInfo, p: Seq<u8>) -> bool {
    i == KafkaInfo {
        msg_type: LogMessageType::Response,
        resp_msg_size: Some(be_u32(p, 0) as u32),
        correlation_id: be_u32(p, 4) as u32,
        ..old
    }
}

/// `i` is a fresh record of the request `p` (on the client-to-server side)
/// or of the response `p`.
pub open spec fn fresh_record(i: KafkaInfo, p: Seq<u8>, d: PacketDirection) -> bool {
    &&& !i.is_tls
    &&& i.status == L7ResponseStatus::Unknown
    &&& i.status_code is None
    &&& i.rrt == 0
    &&& match d {
        PacketDirection::ClientToServer => {
            &&& request_envelope(i, p)
            &&& i.resp_msg_size is None
        },
        PacketDirection::ServerToClient => {
            &&& i.msg_type == LogMessageType::Response
            &&& i.resp_msg_size == Some(be_u32(p, 0) as u32)
            &&& i.correlation_id as int == be_u32(p, 4)
            &&& i.req_msg_size is None
            &&& i.api_key == 0
            &&& i.api_version == 0
            &&& i.client_id@.len() == 0
            &&& i.topics is None
        },
    }
}

/// The counters before a payload is parsed: fresh ones where none are kept
/// yet and they are asked for.
pub open spec fn stats_before_parse(s: Option<L7PerfStats>, parse_perf: bool) -> Option<
    L7PerfStats,
> {
    if s is None && parse_perf {
        Some(zero_stats())
    } else {
        s
    }
}

/// The message type that a direction carries.
pub open spec fn type_of(d: PacketDirection) -> LogMessageType {
    match d {
        PacketDirection::ClientToServer => LogMessageType::Request,
        PacketDirection::ServerToClient => LogMessageType::Response,
    }
}

/// A payload parses: over TCP, a request envelope decodes leniently, or a
/// response envelope is complete.
pub open spec fn parses(p: Seq<u8>, proto: IpProtocol, d: PacketDirection) -> bool {
    &&& proto == IpProtocol::Tcp
    &&& match d {
        PacketDirection::ClientToServer => request_decodes(p, false),
        PacketDirection::ServerToClient => p.len() >= 8,
    }
}

/// The counters after a payload in direction `d` parsed.
pub open spec fn stats_after_parse(s: Option<L7PerfStats>, d: PacketDirection) -> Option<L7PerfStats> {
    match d {
        PacketDirection::ClientToServer => map_stats(s, |x: L7PerfStats| x.with_request()),
        PacketDirection::ServerToClient => map_stats(s, |x: L7PerfStats| x.with_response()),
    }
}

/// A payload is taken for this protocol: captured raw over TCP, with a
/// request envelope that decodes strictly, a recognised operation kind and a
/// non-empty client identifier.
pub open spec fn detected(p: Seq<u8>, param: ParseParam) -> bool {
    &&& param.raw_protocol
    &&& param.l4_protocol == IpProtocol::Tcp
    &&& request_decodes(p, true)
    &&& be_u16(p, 4) <= API_KEY_MAX
    &&& client_id_len(p) > 0
}

// ---------------------------------------------------------------------------
// Correlation
/// A cached message pairs with the current one: of the other type, and
/// within the timeout in the direction that their roles give.
pub open spec fn pairs(prev: RrtCacheEntry, cur: LogMessageType, time: u64, timeout: u64) -> bool {
    ||| prev.msg_type == LogMessageType::Request && cur == LogMessageType::Response && time
        < prev.time + timeout
    ||| prev.msg_type == LogMessageType::Response && cur == LogMessageType::Request && prev.time
        < time + timeout
}

pub open spec fn abs_diff(a: u64, b: u64) -> u64 {
    if a >= b {
        (a - b) as u64
    } else {
        (b - a) as u64
    }
}

/// The code that pairing with `prev` resolves: the one embedded in a
/// response body at the layout of the cached request, or the code that a
/// cached response carried.
pub open spec fn paired_code(info: KafkaInfo, p: Seq<u8>, prev: RrtCacheEntry) -> Option<i16> {
    if prev.msg_type == LogMessageType::Request {
        if p.len() >= 8 {
            resolved_code(prev.api_key, prev.api_version, p.subrange(8, p.len() as int), None)
        } else {
            None
        }
    } else {
        Some(prev.code)
    }
}

/// The record once pairing with `prev` resolved its status.
pub open spec fn paired_info(info: KafkaInfo, p: Seq<u8>, prev: RrtCacheEntry) -> KafkaInfo {
    if prev.msg_type == LogMessageType::Request {
        if p.len() >= 8 {
            with_status(info, prev.api_key, prev.api_version, p.subrange(8, p.len() as int), None)
        } else {
            info
        }
    } else {
        with_status(info, info.api_key, info.api_version, p, Some(prev.code))
    }
}

/// The cached entry, where there is one, pairs with `info`.
pub open spec fn matched(previous: Option<RrtCacheEntry>, info: KafkaInfo, param: ParseParam) -> bool {
    match previous {
        Some(prev) => pairs(prev, info.msg_type, param.time, param.rrt_timeout),
        None => false,
    }
}

/// What the cache keeps of a message that found no peer.
pub open spec fn entry_of(info: KafkaInfo, time: u64) -> RrtCacheEntry {
    RrtCacheEntry {
        msg_type: info.msg_type,
        time,
        api_key: info.api_key,
        api_version: info.api_version,
        code: match info.status_code {
            Some(c) => c,
            None => 0,
        },
    }
}

impl KafkaLog {
    pub fn new() -> (r: Self)
        ensures
            r.perf_stats is None,
    {
        KafkaLog { perf_stats: None }
    }

    fn count_server_error(&mut self)
        ensures
            final(self).perf_stats == map_stats(
                old(self).perf_stats,
                |x: L7PerfStats| x.with_server_error(),
            ),
    {
        if let Some(mut s) = self.perf_stats {
            s.inc_resp_err();
            self.perf_stats = Some(s);
        }
    }

    /// The topic named by a request, from the bytes after its client
    /// identifier; `None` where the layout is unsupported or the bytes run
    /// short.
    pub fn get_topics_name(&self, api_key: u16, api_version: u16, payload: &[u8]) -> (r: Option<
        String,
    >)
        ensures
            text_of(r) == topic_name(api_key, api_version, payload@),
    {
        let base = match topic_fixed_offset(api_key, api_version) {
            Some(o) => o,
            None => {
                return None;
            },
        };
        if api_key == KAFKA_PRODUCE {
            if api_version == 9 {
                if payload.len() == 0 {
                    return None;
                }
                compact_name_at(payload, base + payload[0] as usize)
            } else if api_version >= 3 {
                if payload.len() < 2 {
                    return None;
                }
                let tid_len = read_i16_be(payload, 0);
                let off = if tid_len > 0 {
                    base + tid_len as usize
                } else {
                    base
                };
                plain_name_at(payload, off)
            } else {
                plain_name_at(payload, base)
            }
        } else if api_version == 12 {
            compact_name_at(payload, base)
        } else {
            plain_name_at(payload, base)
        }
    }

    /// Resolves the status of `info`: from `code` where it is given, else
    /// from the error code embedded in the response body `payload` at the
    /// layout of (`api_key`, `api_version`). A non-zero code counts a server
    /// error.
    pub fn set_status_code(
        &mut self,
        api_key: u16,
        api_version: u16,
        payload: &[u8],
        info: &mut KafkaInfo,
        code: Option<i16>,
    )
        ensures
            *final(info) == with_status(*old(info), api_key, api_version, payload@, code),
            final(self).perf_stats == stats_with_code(
                old(self).perf_stats,
                resolved_code(api_key, api_version, payload@, code),
            ),
    {
        if let Some(c) = code {
            if c == 0 {
                info.status = L7ResponseStatus::Success;
            } else {
                info.status = L7ResponseStatus::ServerError;
                self.count_server_error();
            }
            return;
        }
        let base = match errcode_fixed_offset(api_key, api_version) {
            Some(o) => o,
            None => {
                return;
            },
        };
        if payload.len() < base {
            return;
        }
        let mut topic_len: i16 = 0;
        if api_key == KAFKA_PRODUCE {
            topic_len = read_i16_be(payload, 4);
        } else {
            if api_version == 0 {
                topic_len = read_i16_be(payload, 4);
            } else if api_version <= 6 {
                topic_len = read_i16_be(payload, 10);
            } else if api_version >= 12 {
                return;
            }
        }
        let off = if topic_len > 0 {
            base + topic_len as usize
        } else {
            base
        };
        if off + 2 > payload.len() {
            return;
        }
        let c = read_i16_be(payload, off);
        info.status_code = Some(c);
        if c == 0 {
            info.status = L7ResponseStatus::Success;
        } else {
            info.status = L7ResponseStatus::ServerError;
            self.count_server_error();
        }
    }

    /// Decodes a request envelope into `info`; `strict` also asks the frame
    /// length to match the payload and the client identifier to be
    /// non-empty. On failure `info` is left as it was.
    pub fn request(&self, payload: &[u8], strict: bool, info: &mut KafkaInfo) -> (r: Result<
        (),
        KafkaError,
    >)
        ensures
            r is Ok <==> request_decodes(payload@, strict),
            payload@.len() >= 14 && payload@.len() < 14 + client_id_len(payload@) ==> r
                == Err::<(), KafkaError>(KafkaError::ParseFailed),
            r is Ok ==> request_fields(*final(info), *old(info), payload@),
            r is Err ==> r == Err::<(), KafkaError>(KafkaError::ParseFailed) && *final(info)
                == *old(info),
    {
        if payload.len() < KAFKA_REQ_HEADER_LEN {
            return Err(KafkaError::ParseFailed);
        }
        let req_len = read_u32_be(payload, 0);
        let client_id_len = read_u16_be(payload, 12) as usize;
        if payload.len() < KAFKA_REQ_HEADER_LEN + client_id_len {
            return Err(KafkaError::ParseFailed);
        }
        if strict && req_len as usize != payload.len() - MSG_LEN_SIZE {
            return Err(KafkaError::ParseFailed);
        }
        if strict && client_id_len == 0 {
            return Err(KafkaError::ParseFailed);
        }
        let id_bytes = slice_subrange(payload, 14, 14 + client_id_len);
        if !is_ascii_bytes(id_bytes) {
            return Err(KafkaError::ParseFailed);
        }
        let api_key = read_u16_be(payload, 4);
        let api_version = read_u16_be(payload, 6);
        info.req_msg_size = Some(req_len);
        info.msg_type = LogMessageType::Request;
        info.api_key = api_key;
        info.api_version = api_version;
        info.correlation_id = read_u32_be(payload, 8);
        info.client_id = lossy_text(id_bytes);
        info.topics = self.get_topics_name(
            api_key,
            api_version,
            slice_subrange(payload, 14 + client_id_len, payload.len()),
        );
        Ok(())
    }

    /// Decodes a response envelope into `info`. On failure `info` is left as
    /// it was.
    pub fn response(&self, payload: &[u8], info: &mut KafkaInfo) -> (r: Result<(), KafkaError>)
        ensures
            r is Ok <==> payload@.len() >= 8,
            r is Ok ==> response_fields(*final(info), *old(info), payload@),
            r is Err ==> r == Err::<(), KafkaError>(KafkaError::ParseFailed) && *final(info)
                == *old(info),
    {
        if payload.len() < KAFKA_RESP_HEADER_LEN {
            return Err(KafkaError::ParseFailed);
        }
        info.resp_msg_size = Some(read_u32_be(payload, 0));
        info.correlation_id = read_u32_be(payload, 4);
        info.msg_type = LogMessageType::Response;
        Ok(())
    }

    /// Decodes a payload of the given direction into `info`, leniently, and
    /// counts it.
    pub fn parse(
        &mut self,
        payload: &[u8],
        proto: IpProtocol,
        direction: PacketDirection,
        info: &mut KafkaInfo,
    ) -> (r: Result<(), KafkaError>)
        ensures
            r is Ok <==> parses(payload@, proto, direction),
            proto != IpProtocol::Tcp ==> r == Err::<(), KafkaError>(KafkaError::InvalidTransport),
            proto == IpProtocol::Tcp && r is Err ==> r == Err::<(), KafkaError>(
                KafkaError::ParseFailed,
            ),
            r is Ok ==> match direction {
                PacketDirection::ClientToServer => request_fields(
                    *final(info),
                    *old(info),
                    payload@,
                ),
                PacketDirection::ServerToClient => response_fields(
                    *final(info),
                    *old(info),
                    payload@,
                ),
            },
            r is Ok ==> final(self).perf_stats == stats_after_parse(
                old(self).perf_stats,
                direction,
            ),
            r is Err ==> *final(info) == *old(info) && *final(self) == *old(self),
    {
        if proto != IpProtocol::Tcp {
            return Err(KafkaError::InvalidTransport);
        }
        match direction {
            PacketDirection::ClientToServer => {
                self.request(payload, false, info)?;
                if let Some(mut s) = self.perf_stats {
                    s.inc_req();
                    self.perf_stats = Some(s);
                }
            },
            PacketDirection::ServerToClient => {
                self.response(payload, info)?;
                if let Some(mut s) = self.perf_stats {
                    s.inc_resp();
                    self.perf_stats = Some(s);
                }
            },
        }
        Ok(())
    }

    /// Parses a payload into a fresh record, setting up the counters first
    /// where they are asked for.
    pub fn parse_payload(&mut self, payload: &[u8], param: &ParseParam) -> (r: Result<
        KafkaInfo,
        KafkaError,
    >)
        ensures
            r is Ok <==> parses(payload@, param.l4_protocol, param.direction),
            param.l4_protocol != IpProtocol::Tcp ==> r matches Err(KafkaError::InvalidTransport),
            param.l4_protocol == IpProtocol::Tcp && r is Err ==> r matches Err(
                KafkaError::ParseFailed,
            ),
            r matches Ok(i) ==> fresh_record(i, payload@, param.direction),
            param.l4_protocol == IpProtocol::Tcp && param.direction
                == PacketDirection::ClientToServer && payload@.len() >= 14 && payload@.len() < 14
                + client_id_len(payload@) ==> r matches Err(KafkaError::ParseFailed),
            final(self).perf_stats == if r is Ok {
                stats_after_parse(
                    stats_before_parse(old(self).perf_stats, param.parse_perf),
                    param.direction,
                )
            } else {
                stats_before_parse(old(self).perf_stats, param.parse_perf)
            },
    {
        if self.perf_stats.is_none() && param.parse_perf {
            self.perf_stats = Some(L7PerfStats::new());
        }
        let mut info = KafkaInfo::default();
        match self.parse(payload, param.l4_protocol, param.direction, &mut info) {
            Ok(()) => Ok(info),
            Err(e) => Err(e),
        }
    }

    /// Correlates a parsed record with the entry that the correlation cache
    /// holds for its exchange, if any. A pairing peer resolves the status
    /// and the round-trip time, and is dropped from the cache; otherwise the
    /// record is kept there for its peer.
    pub fn resolve(
        &mut self,
        payload: &[u8],
        param: &ParseParam,
        info: KafkaInfo,
        previous: Option<RrtCacheEntry>,
    ) -> (r: ParseOutcome)
        ensures
            matched(previous, info, *param) ==> {
                let prev = previous->Some_0;
                let rrt = abs_diff(param.time, prev.time);
                &&& r.cache_update == CacheUpdate::Remove
                &&& r.record == if param.parse_log {
                    Some(KafkaInfo { rrt, ..paired_info(info, payload@, prev) })
                } else {
                    None
                }
                &&& final(self).perf_stats == map_stats(
                    stats_with_code(old(self).perf_stats, paired_code(info, payload@, prev)),
                    |x: L7PerfStats| x.with_rrt(rrt),
                )
            },
            !matched(previous, info, *param) ==> {
                &&& r.cache_update == CacheUpdate::Insert(entry_of(info, param.time))
                &&& r.record == if param.parse_log {
                    Some(info)
                } else {
                    None
                }
                &&& *final(self) == *old(self)
            },
    {
        let mut info = info;
        let prev = match previous {
            Some(prev) => prev,
            None => {
                let entry = RrtCacheEntry {
                    msg_type: info.msg_type,
                    time: param.time,
                    api_key: info.api_key,
                    api_version: info.api_version,
                    code: match info.status_code {
                        Some(c) => c,
                        None => 0,
                    },
                };
                return ParseOutcome {
                    record: if param.parse_log {
                        Some(info)
                    } else {
                        None
                    },
                    cache_update: CacheUpdate::Insert(entry),
                };
            },
        };
        let request_then_response = prev.msg_type == LogMessageType::Request && info.msg_type
            == LogMessageType::Response && (param.time as u128) < (prev.time as u128) + (
        param.rrt_timeout as u128);
        let response_then_request = prev.msg_type == LogMessageType::Response && info.msg_type
            == LogMessageType::Request && (prev.time as u128) < (param.time as u128) + (
        param.rrt_timeout as u128);
        if request_then_response {
            if payload.len() >= KAFKA_RESP_HEADER_LEN {
                self.set_status_code(
                    prev.api_key,
                    prev.api_version,
                    slice_subrange(payload, KAFKA_RESP_HEADER_LEN, payload.len()),
                    &mut info,
                    None,
                );
            }
        } else if response_then_request {
            let api_key = info.api_key;
            let api_version = info.api_version;
            self.set_status_code(api_key, api_version, payload, &mut info, Some(prev.code));
        } else {
            let entry = RrtCacheEntry {
                msg_type: info.msg_type,
                time: param.time,
                api_key: info.api_key,
                api_version: info.api_version,
                code: match info.status_code {
                    Some(c) => c,
                    None => 0,
                },
            };
            return ParseOutcome {
                record: if param.parse_log {
                    Some(info)
                } else {
                    None
                },
                cache_update: CacheUpdate::Insert(entry),
            };
        }
        let rrt = if param.time >= prev.time {
            param.time - prev.time
        } else {
            prev.time - param.time
        };
        info.rrt = rrt;
        if let Some(mut s) = self.perf_stats {
            s.update_rrt(rrt);
            self.perf_stats = Some(s);
        }
        ParseOutcome {
            record: if param.parse_log {
                Some(info)
            } else {
                None
            },
            cache_update: CacheUpdate::Remove,
        }
    }

    /// Hands out the counters gathered so far, leaving none.
    pub fn perf_stats(&mut self) -> (r: Option<L7PerfStats>)
        ensures
            r == old(self).perf_stats,
            final(self).perf_stats is None,
    {
        let r = self.perf_stats;
        self.perf_stats = None;
        r
    }

    /// Whether a payload is taken for this protocol.
    pub fn check_payload(&self, payload: &[u8], param: &ParseParam) -> (r: bool)
        ensures
            r == detected(payload@, *param),
    {
        if !param.raw_protocol || param.l4_protocol != IpProtocol::Tcp || payload.len()
            < KAFKA_REQ_HEADER_LEN {
            return false;
        }
        let mut info = KafkaInfo::default();
        let ok = self.request(payload, true, &mut info).is_ok();
        ok && info.check()
    }
}

/// On counters that start fresh, one parsed request, one parsed response
/// and the pairing that resolves them count one request, one response and
/// one round-trip sample, whose sum and maximum are that round-trip time.
pub proof fn lemma_one_exchange_counters(rrt: u64, code: Option<i16>)
    ensures
        ({
            let s0 = stats_before_parse(None, true);
            let s1 = stats_after_parse(s0, PacketDirection::ClientToServer);
            let s2 = stats_after_parse(s1, PacketDirection::ServerToClient);
            let s3 = map_stats(stats_with_code(s2, code), |x: L7PerfStats| x.with_rrt(rrt));
            &&& s3 is Some
            &&& s3->Some_0.request_count == 1
            &&& s3->Some_0.response_count == 1
            &&& s3->Some_0.rrt_count == 1
            &&& s3->Some_0.rrt_sum == rrt
            &&& s3->Some_0.rrt_max == rrt
        }),
{
}

} // verus!
