//! Frames, delays, profiles and channels.
use vstd::arithmetic::power2::{lemma_pow2_unfold, pow2};
use vstd::prelude::*;
use super::snapshots::{filled, filled_is_not_blank};
use super::words::says;
use crate::error::CultNetError;
use crate::framing::{
    complete_payloads, decode_frame_header, encode_frame, frame_is_complete, framed,
    incomplete_rest, read_frame,
};
use crate::text::{debug_text, views};
use crate::transport::{
    compute_reconnect_delay_ms, create_reconnect_policy, create_tcp_framed_transport_profile,
    doublings, reconnect_delay, CultNetReconnectPolicy, CultNetReconnectPolicyOptions,
    CultNetTransportDelivery, CultNetTransportOrdering, CultNetTransportProfile,
    CultNetTransportProtocol, TcpFramedTransportConnection, TcpFramedTransportProfileOptions,
};

verus! {

// ---------------------------------------------------------------------------
// Frames
// ---------------------------------------------------------------------------

/// The number that four bytes stand for, the most significant one first.
pub open spec fn four_byte_number(bytes: Seq<u8>) -> int {
    ((bytes[0] * 256 + bytes[1]) * 256 + bytes[2]) * 256 + bytes[3]
}

/// A frame is four bytes that stand for the length of the payload, and the payload.
pub proof fn a_frame_is_its_length_and_its_payload(payload: &[u8], outcome: Result<Vec<u8>, CultNetError>)
    requires
        call_ensures(encode_frame, (payload,), outcome),
    ensures
        outcome is Ok <==> payload@.len() <= 4294967295,
        outcome is Err ==> says(outcome, "CultNet frame payload is too large"@),
        outcome matches Ok(frame) ==> {
            &&& frame@.len() == 4 + payload@.len()
            &&& four_byte_number(frame@) == payload@.len()
            &&& frame@.skip(4) == payload@
        },
{
    if let Ok(frame) = outcome {
        let length = payload@.len();
        assert(frame@.skip(4) =~= payload@);
        assert(length == length / 0x100_0000 % 0x100 * 0x100_0000 + length / 0x1_0000 % 0x100 * 0x1_0000 + length / 0x100
            % 0x100 * 0x100 + length % 0x100);
    }
}

/// A frame is read exactly if its header and all of its payload are there; what is read is
/// the payload.
pub proof fn a_frame_is_read_exactly_if_it_is_whole(
    bytes: &[u8],
    header: [u8; 4],
    outcome: Option<Vec<u8>>,
    length: u32,
)
    requires
        call_ensures(read_frame, (bytes,), outcome),
        call_ensures(decode_frame_header, (header,), length),
    ensures
        outcome is Some <==> bytes@.len() >= 4 && bytes@.len() >= 4 + four_byte_number(bytes@),
        outcome matches Some(payload) ==> payload@ == bytes@.subrange(4, 4 + four_byte_number(bytes@)),
        length == four_byte_number(header@),
{
}

/// The frames of the payloads, one behind the other.
pub open spec fn frames_of(payloads: Seq<Seq<u8>>) -> Seq<u8>
    decreases payloads.len(),
{
    if payloads.len() == 0 {
        Seq::empty()
    } else {
        framed(payloads[0]) + frames_of(payloads.drop_first())
    }
}

/// Bytes come apart into the payloads of whole frames and a rest that is no whole frame:
/// the frames of the payloads and the rest are the bytes.
pub proof fn bytes_come_apart_into_frames(bytes: Seq<u8>)
    ensures
        frames_of(complete_payloads(bytes)) + incomplete_rest(bytes) == bytes,
        incomplete_rest(bytes).len() < 4 || incomplete_rest(bytes).len() < 4 + four_byte_number(incomplete_rest(bytes)),
    decreases bytes.len(),
{
    if frame_is_complete(bytes) {
        let length = four_byte_number(bytes);
        let end = 4 + length;
        let payload = bytes.subrange(4, end);
        let rest = bytes.skip(end);
        bytes_come_apart_into_frames(rest);
        let payloads = complete_payloads(bytes);
        assert(payloads == seq![payload] + complete_payloads(rest));
        assert(payloads.drop_first() =~= complete_payloads(rest));
        assert(payloads[0] == payload);
        a_header_holds_the_length(bytes);
        assert(framed(payload) =~= bytes.take(end));
        assert(bytes.take(end) + rest =~= bytes);
        assert(framed(payload) + frames_of(complete_payloads(rest)) + incomplete_rest(rest) =~= framed(payload) + (
        frames_of(complete_payloads(rest)) + incomplete_rest(rest)));
    } else {
        assert(frames_of(complete_payloads(bytes)) =~= Seq::empty());
        assert(Seq::<u8>::empty() + bytes =~= bytes);
    }
}

proof fn a_header_holds_the_length(bytes: Seq<u8>)
    requires
        bytes.len() >= 4,
    ensures
        crate::framing::frame_header(four_byte_number(bytes) as nat) == bytes.take(4),
{
    let (a, b, c, d) = (bytes[0] as int, bytes[1] as int, bytes[2] as int, bytes[3] as int);
    let n = four_byte_number(bytes);
    assert(n == a * 0x100_0000 + b * 0x1_0000 + c * 0x100 + d);
    assert(n / 0x100_0000 % 0x100 == a);
    assert(n / 0x1_0000 % 0x100 == b);
    assert(n / 0x100 % 0x100 == c);
    assert(n % 0x100 == d);
    assert(crate::framing::frame_header(n as nat) =~= bytes.take(4));
}

/// On the schema channel a payload that fits is sent as its frame; on any other channel
/// nothing is.
pub proof fn only_the_schema_channel_sends<TStream>(
    connection: &TcpFramedTransportConnection<TStream>,
    channel_id: &str,
    payload: &[u8],
    outcome: Result<Vec<u8>, CultNetError>,
)
    requires
        call_ensures(TcpFramedTransportConnection::<TStream>::send, (connection, channel_id, payload), outcome),
    ensures
        outcome is Ok <==> channel_id@ == "schema"@ && payload@.len() <= 4294967295,
        channel_id@ != "schema"@ ==> says(
            outcome,
            "tcp_framed transport only supports the schema channel, got "@ + debug_text(channel_id@),
        ),
        channel_id@ == "schema"@ && payload@.len() > 4294967295 ==> says(outcome, "CultNet frame payload is too large"@),
        outcome matches Ok(frame) ==> frame@ == framed(payload@),
{
}

// ---------------------------------------------------------------------------
// Reconnecting
// ---------------------------------------------------------------------------

/// A policy takes its options as they are; an id of white space becomes the default one.
pub proof fn a_policy_takes_its_options(options: CultNetReconnectPolicyOptions, policy: CultNetReconnectPolicy)
    requires
        call_ensures(create_reconnect_policy, (options,), policy),
    ensures
        policy.schema_version@ == "cultnet.reconnect_policy.v0"@,
        filled(options.policy_id@) ==> policy.policy_id@ == options.policy_id@,
        !filled(options.policy_id@) ==> policy.policy_id@ == "default"@,
        policy.base_delay_ms == options.base_delay_ms,
        policy.max_delay_ms == options.max_delay_ms,
        policy.max_jitter_ms == options.max_jitter_ms,
        policy.max_attempts == options.max_attempts,
{
    filled_is_not_blank(options.policy_id@);
}

/// The smaller one of the two.
pub open spec fn least(a: int, b: int) -> int {
    if a < b {
        a
    } else {
        b
    }
}

/// The first attempt waits the base delay, the one after an attempt twice as long as it but
/// for the cap, and each with the jitter up to its cap on top.
pub proof fn delays_start_at_the_base_and_double(
    policy: &CultNetReconnectPolicy,
    attempt: u32,
    jitter: u64,
    delay: u64,
)
    requires
        reconnect_delay(*policy, attempt, jitter) <= u64::MAX,
        call_ensures(compute_reconnect_delay_ms, (policy, attempt, jitter), delay),
    ensures
        attempt <= 1 ==> delay == least(policy.base_delay_ms as int, policy.max_delay_ms as int) + least(
            jitter as int,
            policy.max_jitter_ms as int,
        ),
        attempt > 1 ==> delay == least(
            2 * reconnect_delay(*policy, (attempt - 1) as u32, 0),
            policy.max_delay_ms as int,
        ) + least(jitter as int, policy.max_jitter_ms as int),
{
    if attempt <= 1 {
        vstd::arithmetic::power2::lemma2_to64();
        assert(doublings(attempt) == 0);
        assert(pow2(0) == 1);
        assert(policy.base_delay_ms * pow2(0) == policy.base_delay_ms);
    } else {
        let shorter = doublings((attempt - 1) as u32);
        lemma_pow2_unfold(doublings(attempt));
        let power = pow2(shorter);
        let base = policy.base_delay_ms as int;
        vstd::arithmetic::power2::lemma_pow2_pos(shorter);
        assert(base * (2 * power) == 2 * (base * power)) by (nonlinear_arith);
        assert(base * power >= 0) by (nonlinear_arith)
            requires
                base >= 0,
                power >= 0,
        ;
    }
}

// ---------------------------------------------------------------------------
// Profiles
// ---------------------------------------------------------------------------

/// A framed TCP profile has the runtime's name and one transport with one channel: schema
/// messages, reliable and in order, with the limits that are given.
pub proof fn a_framed_profile_has_one_transport_and_one_channel(
    runtime_id: &str,
    options: TcpFramedTransportProfileOptions,
    profile: CultNetTransportProfile,
)
    requires
        call_ensures(create_tcp_framed_transport_profile, (runtime_id, options), profile),
    ensures
        profile.schema_version@ == "cultnet.transport_profile.v0"@,
        profile.runtime_id@ == runtime_id@,
        profile.transports@.len() == 1,
        ({
            let transport = profile.transports@[0];
            let channel = transport.channels@[0];
            &&& options.transport_id is None ==> transport.transport_id@ == "tcp-framed"@
            &&& options.transport_id matches Some(id) ==> transport.transport_id@ == id@
            &&& transport.protocol == CultNetTransportProtocol::TcpFramed
            &&& options.host is None ==> transport.host is None
            &&& options.host matches Some(host) ==> (transport.host matches Some(kept) && kept@ == host@)
            &&& transport.port == options.port
            &&& transport.path is None
            &&& transport.discovery_group is None
            &&& transport.wire_contracts matches Some(contracts) && contracts@.len() == 1 && contracts@[0]@
                == "cultnet.schema.v0"@
            &&& transport.channels@.len() == 1
            &&& channel.channel_id@ == "schema"@
            &&& channel.delivery == CultNetTransportDelivery::Reliable
            &&& channel.ordering == CultNetTransportOrdering::Ordered
            &&& channel.max_payload_bytes == options.max_payload_bytes
            &&& channel.max_fragment_bytes == options.max_fragment_bytes
            &&& channel.max_pending_reliable_packets is None
            &&& channel.reliable_expire_after_ms is None
        }),
{
    let contracts = profile.transports@[0].wire_contracts->0;
    assert(views(contracts@).len() == contracts@.len());
    assert(views(contracts@)[0] == contracts@[0]@);
}

}
