//! Framed transport: reconnect delays, transport profiles, and what a framed TCP
//! connection sends, accepts and counts.
use vstd::arithmetic::power2::{lemma_pow2_unfold, pow2};
use vstd::prelude::*;
use crate::error::{first_of, refuse, reports, unless, CultNetError};
use crate::framing::{
    encode_frame, first_payload, framed, read_frame, the_first_frame_gives_back_its_payload,
    FRAME_HEADER_BYTES,
};
use crate::text::{blank, debug_text, is_blank, joined, opt, quoted, same_text, views};

verus! {

#[derive(Clone, Copy, Debug, PartialEq, Eq, Structural)]
pub struct CultNetTransportStats {
    pub bytes_received: u64,
    pub bytes_sent: u64,
    pub frames_received: u64,
    pub frames_sent: u64,
    pub reliable_packets_expired: u64,
}

impl Default for CultNetTransportStats {
    fn default() -> (stats: Self)
        ensures
            stats == (CultNetTransportStats {
                bytes_received: 0,
                bytes_sent: 0,
                frames_received: 0,
                frames_sent: 0,
                reliable_packets_expired: 0,
            }),
    {
        CultNetTransportStats {
            bytes_received: 0,
            bytes_sent: 0,
            frames_received: 0,
            frames_sent: 0,
            reliable_packets_expired: 0,
        }
    }
}

#[derive(Clone, Debug, PartialEq, Eq)]
pub struct CultNetTransportFrame {
    pub channel_id: String,
    pub payload: Vec<u8>,
}

// ---------------------------------------------------------------------------
// Reconnecting
// ---------------------------------------------------------------------------

#[derive(Clone, Debug, PartialEq, Eq)]
pub struct CultNetReconnectPolicy {
    pub schema_version: String,
    pub policy_id: String,
    pub base_delay_ms: u64,
    pub max_delay_ms: u64,
    pub max_jitter_ms: u64,
    pub max_attempts: Option<u32>,
}

#[derive(Clone, Debug)]
pub struct CultNetReconnectPolicyOptions {
    pub policy_id: String,
    pub base_delay_ms: u64,
    pub max_delay_ms: u64,
    pub max_jitter_ms: u64,
    pub max_attempts: Option<u32>,
}

impl Default for CultNetReconnectPolicyOptions {
    fn default() -> (options: Self)
        ensures
            options.policy_id@ == "default"@,
            options.base_delay_ms == 1_000,
            options.max_delay_ms == 30_000,
            options.max_jitter_ms == 250,
            options.max_attempts is None,
    {
        CultNetReconnectPolicyOptions {
            policy_id: "default".to_owned(),
            base_delay_ms: 1_000,
            max_delay_ms: 30_000,
            max_jitter_ms: 250,
            max_attempts: None,
        }
    }
}

pub fn create_reconnect_policy(options: CultNetReconnectPolicyOptions) -> (policy: CultNetReconnectPolicy)
    ensures
        policy.schema_version@ == "cultnet.reconnect_policy.v0"@,
        policy.policy_id@ == (if blank(options.policy_id@) {
            "default"@
        } else {
            options.policy_id@
        }),
        policy.base_delay_ms == options.base_delay_ms,
        policy.max_delay_ms == options.max_delay_ms,
        policy.max_jitter_ms == options.max_jitter_ms,
        policy.max_attempts == options.max_attempts,
{
    let policy_id = if is_blank(&options.policy_id) {
        "default".to_owned()
    } else {
        options.policy_id.clone()
    };
    CultNetReconnectPolicy {
        schema_version: "cultnet.reconnect_policy.v0".to_owned(),
        policy_id,
        base_delay_ms: options.base_delay_ms,
        max_delay_ms: options.max_delay_ms,
        max_jitter_ms: options.max_jitter_ms,
        max_attempts: options.max_attempts,
    }
}

pub open spec fn smaller(a: int, b: int) -> int {
    if a <= b {
        a
    } else {
        b
    }
}

/// How many times the delay has doubled at an attempt; attempts are counted from one.
pub open spec fn doublings(attempt: u32) -> nat {
    if attempt == 0 {
        0
    } else {
        (attempt - 1) as nat
    }
}

/// The delay before an attempt: the base delay, doubled with each attempt after the
/// first up to the longest delay, and the jitter up to the largest jitter.
pub open spec fn reconnect_delay(policy: CultNetReconnectPolicy, attempt: u32, jitter_ms: u64) -> int {
    smaller(policy.base_delay_ms * pow2(doublings(attempt)), policy.max_delay_ms as int) + smaller(
        jitter_ms as int,
        policy.max_jitter_ms as int,
    )
}

/// The delay, doubled as many times as given, up to the limit.
fn doubled_up_to(delay: u64, times: u32, limit: u64) -> (result: u64)
    ensures
        result == smaller(delay * pow2(times as nat), limit as int),
{
    let mut current: u64 = delay;
    let mut left: u32 = times;
    while left > 0 && current < limit && current > 0
        invariant
            left <= times,
            smaller(current * pow2(left as nat), limit as int) == smaller(
                delay * pow2(times as nat),
                limit as int,
            ),
        decreases left,
    {
        proof {
            lemma_pow2_unfold(left as nat);
            let power = pow2((left - 1) as nat);
            assert(current * (2 * power) == (2 * current) * power) by (nonlinear_arith);
            vstd::arithmetic::power2::lemma_pow2_pos((left - 1) as nat);
            if 2 * current > u64::MAX {
                assert((2 * current) * power >= limit && u64::MAX * power >= limit) by (nonlinear_arith)
                    requires
                        2 * current > u64::MAX,
                        limit <= u64::MAX,
                        power >= 1,
                ;
            }
        }
        current = if current > 0x7fff_ffff_ffff_ffff {
            0xffff_ffff_ffff_ffff
        } else {
            2 * current
        };
        left -= 1;
    }
    proof {
        vstd::arithmetic::power2::lemma_pow2_pos(left as nat);
        let power = pow2(left as nat);
        if left == 0 {
            vstd::arithmetic::power2::lemma2_to64();
            assert(current * power == current);
        } else if current == 0 {
            assert(current * power == 0) by (nonlinear_arith)
                requires
                    current == 0,
            ;
        } else {
            assert(current * power >= limit) by (nonlinear_arith)
                requires
                    current >= limit,
                    power >= 1,
            ;
        }
    }
    if current < limit {
        current
    } else {
        limit
    }
}

pub fn compute_reconnect_delay_ms(policy: &CultNetReconnectPolicy, attempt: u32, jitter_ms: u64) -> (delay: u64)
    requires
        reconnect_delay(*policy, attempt, jitter_ms) <= u64::MAX,
    ensures
        delay == reconnect_delay(*policy, attempt, jitter_ms),
{
    let times: u32 = if attempt == 0 {
        0
    } else {
        attempt - 1
    };
    let jitter: u64 = if jitter_ms <= policy.max_jitter_ms {
        jitter_ms
    } else {
        policy.max_jitter_ms
    };
    doubled_up_to(policy.base_delay_ms, times, policy.max_delay_ms) + jitter
}

/// A delay never exceeds the longest delay and the largest jitter together, and a
/// later attempt never waits less than an earlier one with the same jitter.
pub proof fn delays_are_capped_and_do_not_shrink(
    policy: CultNetReconnectPolicy,
    earlier: u32,
    later: u32,
    jitter_ms: u64,
)
    requires
        earlier <= later,
    ensures
        0 <= reconnect_delay(policy, later, jitter_ms) <= policy.max_delay_ms + policy.max_jitter_ms,
        reconnect_delay(policy, earlier, jitter_ms) <= reconnect_delay(policy, later, jitter_ms),
{
    let (a, b) = (doublings(earlier), doublings(later));
    vstd::arithmetic::power2::lemma_pow2_pos(a);
    vstd::arithmetic::power2::lemma_pow2_pos(b);
    if a < b {
        vstd::arithmetic::power2::lemma_pow2_strictly_increases(a, b);
    }
    assert(0 <= policy.base_delay_ms * pow2(a) <= policy.base_delay_ms * pow2(b)) by (nonlinear_arith)
        requires
            0 <= pow2(a) <= pow2(b),
            policy.base_delay_ms >= 0,
    ;
}

// ---------------------------------------------------------------------------
// Profiles
// ---------------------------------------------------------------------------

#[derive(Clone, Copy, Debug, PartialEq, Eq, Structural)]
pub enum CultNetTransportProtocol {
    TcpFramed,
    Rudp,
    WebSocket,
}

#[derive(Clone, Copy, Debug, PartialEq, Eq, Structural)]
pub enum CultNetTransportDelivery {
    Reliable,
    Unreliable,
}

#[derive(Clone, Copy, Debug, PartialEq, Eq, Structural)]
pub enum CultNetTransportOrdering {
    Ordered,
    Unordered,
}

#[derive(Clone, Debug, PartialEq, Eq)]
pub struct CultNetTransportChannel {
    pub channel_id: String,
    pub delivery: CultNetTransportDelivery,
    pub ordering: CultNetTransportOrdering,
    pub max_payload_bytes: Option<u32>,
    pub max_fragment_bytes: Option<u32>,
    pub max_pending_reliable_packets: Option<u32>,
    pub reliable_expire_after_ms: Option<u64>,
}

#[derive(Clone, Debug, PartialEq, Eq)]
pub struct CultNetTransportDescriptor {
    pub transport_id: String,
    pub protocol: CultNetTransportProtocol,
    pub host: Option<String>,
    pub port: Option<u16>,
    pub path: Option<String>,
    pub discovery_group: Option<String>,
    pub wire_contracts: Option<Vec<String>>,
    pub channels: Vec<CultNetTransportChannel>,
}

#[derive(Clone, Debug, PartialEq, Eq)]
pub struct CultNetTransportProfile {
    pub schema_version: String,
    pub runtime_id: String,
    pub transports: Vec<CultNetTransportDescriptor>,
}

#[derive(Clone, Debug)]
pub struct TcpFramedTransportProfileOptions {
    pub transport_id: Option<String>,
    pub host: Option<String>,
    pub port: Option<u16>,
    pub max_payload_bytes: Option<u32>,
    pub max_fragment_bytes: Option<u32>,
}

impl Default for TcpFramedTransportProfileOptions {
    fn default() -> (options: Self)
        ensures
            options.transport_id is None,
            options.host is None,
            options.port is None,
            options.max_payload_bytes is None,
            options.max_fragment_bytes is None,
    {
        TcpFramedTransportProfileOptions {
            transport_id: None,
            host: None,
            port: None,
            max_payload_bytes: None,
            max_fragment_bytes: None,
        }
    }
}

/// The one channel of a framed TCP transport: schema messages, reliable and in order.
pub open spec fn is_schema_channel(
    channel: CultNetTransportChannel,
    options: TcpFramedTransportProfileOptions,
) -> bool {
    &&& channel.channel_id@ == "schema"@
    &&& channel.delivery == CultNetTransportDelivery::Reliable
    &&& channel.ordering == CultNetTransportOrdering::Ordered
    &&& channel.max_payload_bytes == options.max_payload_bytes
    &&& channel.max_fragment_bytes == options.max_fragment_bytes
    &&& channel.max_pending_reliable_packets is None
    &&& channel.reliable_expire_after_ms is None
}

/// The one transport of a framed TCP profile.
pub open spec fn is_tcp_framed_descriptor(
    descriptor: CultNetTransportDescriptor,
    options: TcpFramedTransportProfileOptions,
) -> bool {
    &&& descriptor.transport_id@ == (match options.transport_id {
        Some(id) => id@,
        None => "tcp-framed"@,
    })
    &&& descriptor.protocol == CultNetTransportProtocol::TcpFramed
    &&& opt(descriptor.host) == opt(options.host)
    &&& descriptor.port == options.port
    &&& descriptor.path is None
    &&& descriptor.discovery_group is None
    &&& descriptor.wire_contracts matches Some(contracts) && views(contracts@) == seq!["cultnet.schema.v0"@]
    &&& descriptor.channels@.len() == 1
    &&& is_schema_channel(descriptor.channels@[0], options)
}

pub fn create_tcp_framed_transport_profile(
    runtime_id: &str,
    options: TcpFramedTransportProfileOptions,
) -> (profile: CultNetTransportProfile)
    ensures
        profile.schema_version@ == "cultnet.transport_profile.v0"@,
        profile.runtime_id@ == runtime_id@,
        profile.transports@.len() == 1,
        is_tcp_framed_descriptor(profile.transports@[0], options),
{
    let transport_id = match options.transport_id {
        Some(id) => id,
        None => "tcp-framed".to_owned(),
    };
    let contracts = vec!["cultnet.schema.v0".to_owned()];
    assert(views(contracts@) =~= seq!["cultnet.schema.v0"@]);
    CultNetTransportProfile {
        schema_version: "cultnet.transport_profile.v0".to_owned(),
        runtime_id: runtime_id.to_owned(),
        transports: vec![
            CultNetTransportDescriptor {
                transport_id,
                protocol: CultNetTransportProtocol::TcpFramed,
                host: options.host,
                port: options.port,
                path: None,
                discovery_group: None,
                wire_contracts: Some(contracts),
                channels: vec![
                    CultNetTransportChannel {
                        channel_id: "schema".to_owned(),
                        delivery: CultNetTransportDelivery::Reliable,
                        ordering: CultNetTransportOrdering::Ordered,
                        max_payload_bytes: options.max_payload_bytes,
                        max_fragment_bytes: options.max_fragment_bytes,
                        max_pending_reliable_packets: None,
                        reliable_expire_after_ms: None,
                    },
                ],
            },
        ],
    }
}

// ---------------------------------------------------------------------------
// Connections
// ---------------------------------------------------------------------------

/// A framed TCP connection: a stream, the profile that it was opened with, and counts
/// of what went over it.
pub struct TcpFramedTransportConnection<TStream> {
    stream: TStream,
    pub profile: CultNetTransportProfile,
    stats: CultNetTransportStats,
}

/// Why a payload cannot be sent on the channel, if it cannot.
pub open spec fn send_violation(channel_id: Seq<char>, payload: Seq<u8>) -> Option<Seq<char>> {
    first_of(
        unless(
            channel_id == "schema"@,
            "tcp_framed transport only supports the schema channel, got "@ + debug_text(channel_id),
        ),
        unless(payload.len() <= u32::MAX, "CultNet frame payload is too large"@),
    )
}

impl<TStream> TcpFramedTransportConnection<TStream> {
    pub closed spec fn counts(self) -> CultNetTransportStats {
        self.stats
    }

    pub closed spec fn opened_with(self) -> CultNetTransportProfile {
        self.profile
    }

    pub closed spec fn inner(self) -> TStream {
        self.stream
    }

    pub fn new(stream: TStream, profile: CultNetTransportProfile) -> (connection: Self)
        ensures
            connection.inner() == stream,
            connection.opened_with() == profile,
            connection.counts() == (CultNetTransportStats {
                bytes_received: 0,
                bytes_sent: 0,
                frames_received: 0,
                frames_sent: 0,
                reliable_packets_expired: 0,
            }),
    {
        TcpFramedTransportConnection { stream, profile, stats: CultNetTransportStats::default() }
    }

    pub fn stats(&self) -> (stats: CultNetTransportStats)
        ensures
            stats == self.counts(),
    {
        self.stats
    }

    pub fn into_inner(self) -> (stream: TStream)
        ensures
            stream == self.inner(),
    {
        self.stream
    }

    /// The stream, to write to and to read from.
    pub fn stream_mut(&mut self) -> (stream: &mut TStream)
        ensures
            *stream == old(self).inner(),
            final(self).inner() == *final(stream),
            final(self).opened_with() == old(self).opened_with(),
            final(self).counts() == old(self).counts(),
    {
        &mut self.stream
    }

    /// The frame that has to be written to the stream to send the payload.
    pub fn send(&self, channel_id: &str, payload: &[u8]) -> (outcome: Result<Vec<u8>, CultNetError>)
        ensures
            reports(outcome, send_violation(channel_id@, payload@)),
            outcome matches Ok(frame) ==> frame@ == framed(payload@),
    {
        if !same_text(channel_id, "schema") {
            return refuse(
                &joined(
                    "tcp_framed transport only supports the schema channel, got ",
                    &quoted(channel_id),
                ),
            );
        }
        encode_frame(payload)
    }

    /// Counts a frame of the given length that was written to the stream.
    pub fn record_sent(&mut self, frame_bytes: u64)
        requires
            old(self).counts().bytes_sent + frame_bytes <= u64::MAX,
            old(self).counts().frames_sent < u64::MAX,
        ensures
            final(self).counts() == (CultNetTransportStats {
                bytes_sent: (old(self).counts().bytes_sent + frame_bytes) as u64,
                frames_sent: (old(self).counts().frames_sent + 1) as u64,
                ..old(self).counts()
            }),
            final(self).inner() == old(self).inner(),
            final(self).opened_with() == old(self).opened_with(),
    {
        self.stats.bytes_sent = self.stats.bytes_sent + frame_bytes;
        self.stats.frames_sent = self.stats.frames_sent + 1;
    }

    /// Takes the frame at the start of what the stream yields, and counts it. Where the
    /// stream ends before the frame does, nothing is counted.
    pub fn receive(&mut self, yielded: &[u8]) -> (outcome: Result<CultNetTransportFrame, CultNetError>)
        requires
            first_payload(yielded@) matches Some(payload) ==> old(self).counts().bytes_received
                + FRAME_HEADER_BYTES + payload.len() <= u64::MAX,
            old(self).counts().frames_received < u64::MAX,
        ensures
            reports(outcome, unless(first_payload(yielded@) is Some, "failed to fill whole buffer"@)),
            match outcome {
                Ok(frame) => {
                    &&& frame.channel_id@ == "schema"@
                    &&& Some(frame.payload@) == first_payload(yielded@)
                    &&& final(self).counts() == (CultNetTransportStats {
                        bytes_received: (old(self).counts().bytes_received + FRAME_HEADER_BYTES
                            + frame.payload@.len()) as u64,
                        frames_received: (old(self).counts().frames_received + 1) as u64,
                        ..old(self).counts()
                    })
                },
                Err(_) => final(self).counts() == old(self).counts(),
            },
            final(self).inner() == old(self).inner(),
            final(self).opened_with() == old(self).opened_with(),
    {
        match read_frame(yielded) {
            None => refuse("failed to fill whole buffer"),
            Some(payload) => {
                self.stats.bytes_received = self.stats.bytes_received + FRAME_HEADER_BYTES as u64
                    + payload.len() as u64;
                self.stats.frames_received = self.stats.frames_received + 1;
                Ok(CultNetTransportFrame { channel_id: "schema".to_owned(), payload })
            },
        }
    }
}

/// What a peer sends is what is received: a stream that yields the frame of the payload,
/// and anything behind it, gives the payload.
pub proof fn receive_gives_what_send_was_given(payload: Seq<u8>, rest: Seq<u8>)
    requires
        send_violation("schema"@, payload) is None,
    ensures
        first_payload(framed(payload) + rest) == Some(payload),
{
    the_first_frame_gives_back_its_payload(payload, rest, 0);
}

}
