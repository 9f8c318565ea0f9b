use cultnet::{
    CultNetReconnectPolicyOptions, CultNetTransportDelivery, CultNetTransportOrdering,
    CultNetTransportProtocol, CultNetTransportStats, FRAME_HEADER_BYTES,
    LengthPrefixedMessageFramer, TcpFramedTransportConnection, TcpFramedTransportProfileOptions,
    compute_reconnect_delay_ms, create_reconnect_policy, create_tcp_framed_transport_profile,
    decode_frame_header, encode_frame, read_frame,
};

#[test]
fn a_frame_is_its_length_and_its_payload() {
    assert_eq!(encode_frame(b"abc").unwrap(), [0, 0, 0, 3, b'a', b'b', b'c']);
    assert_eq!(encode_frame(b"").unwrap(), [0, 0, 0, 0]);
    let frame = encode_frame(&vec![7; 0x1_0203]).unwrap();
    assert_eq!(frame[..4], [0, 1, 2, 3]);
    assert_eq!(frame.len(), FRAME_HEADER_BYTES + 0x1_0203);
    assert_eq!(decode_frame_header([0, 1, 2, 3]), 0x1_0203);
    assert_eq!(decode_frame_header([0xff; 4]), u32::MAX);
    assert_eq!(read_frame(&frame), Some(vec![7; 0x1_0203]));
    assert_eq!(read_frame(&frame[..frame.len() - 1]), None);
    assert_eq!(read_frame(&[0, 0, 0]), None);
}

#[test]
fn frames_come_out_whole_however_the_stream_is_cut() {
    let payloads = [&b"first"[..], b"", b"the third"];
    let mut stream = Vec::new();
    for payload in payloads {
        stream.extend(encode_frame(payload).unwrap());
    }
    stream.extend([0, 0, 0, 9, 1]);
    for cut in 0..=stream.len() {
        let mut framer = LengthPrefixedMessageFramer::new();
        let mut frames = framer.push(&stream[..cut]);
        frames.extend(framer.push(&stream[cut..]));
        assert_eq!(frames, payloads);
        assert_eq!(framer.push(&[2; 8]), [[1, 2, 2, 2, 2, 2, 2, 2, 2]]);
    }
    let mut framer = LengthPrefixedMessageFramer::default();
    let mut frames = Vec::new();
    for byte in stream {
        frames.extend(framer.push(&[byte]));
    }
    assert_eq!(frames, payloads);
}

#[test]
fn reconnect_delays_double_up_to_the_limit() {
    let policy = create_reconnect_policy(CultNetReconnectPolicyOptions::default());
    assert_eq!(policy.schema_version, "cultnet.reconnect_policy.v0");
    assert_eq!(policy.policy_id, "default");
    let delay = |attempt: u32, jitter: u64| compute_reconnect_delay_ms(&policy, attempt, jitter);
    assert_eq!(delay(0, 0), 1_000);
    assert_eq!(delay(1, 0), 1_000);
    assert_eq!(delay(2, 0), 2_000);
    assert_eq!(delay(5, 0), 16_000);
    assert_eq!(delay(6, 0), 30_000);
    assert_eq!(delay(u32::MAX, 0), 30_000);
    assert_eq!(delay(1, 250), 1_250);
    assert_eq!(delay(1, 251), 1_250);
    let mut options = CultNetReconnectPolicyOptions::default();
    options.policy_id = " ".into();
    options.base_delay_ms = 0;
    let idle = create_reconnect_policy(options);
    assert_eq!(idle.policy_id, "default");
    assert_eq!(compute_reconnect_delay_ms(&idle, u32::MAX, 0), 0);
    let mut options = CultNetReconnectPolicyOptions::default();
    options.policy_id = "patient".into();
    options.base_delay_ms = 3;
    options.max_delay_ms = u64::MAX;
    options.max_jitter_ms = 0;
    let patient = create_reconnect_policy(options);
    assert_eq!(patient.policy_id, "patient");
    assert_eq!(compute_reconnect_delay_ms(&patient, 63, 9), 3 << 62);
    assert_eq!(compute_reconnect_delay_ms(&patient, 64, 9), u64::MAX);
}

#[test]
fn the_framed_profile_has_one_reliable_ordered_channel() {
    let profile = create_tcp_framed_transport_profile(
        "runtime",
        TcpFramedTransportProfileOptions::default(),
    );
    assert_eq!(profile.schema_version, "cultnet.transport_profile.v0");
    assert_eq!(profile.runtime_id, "runtime");
    assert_eq!(profile.transports.len(), 1);
    let transport = &profile.transports[0];
    assert_eq!(transport.transport_id, "tcp-framed");
    assert_eq!(transport.protocol, CultNetTransportProtocol::TcpFramed);
    assert_eq!(transport.wire_contracts, Some(vec!["cultnet.schema.v0".to_string()]));
    assert_eq!(transport.channels.len(), 1);
    let channel = &transport.channels[0];
    assert_eq!(channel.channel_id, "schema");
    assert_eq!(channel.delivery, CultNetTransportDelivery::Reliable);
    assert_eq!(channel.ordering, CultNetTransportOrdering::Ordered);
    assert_eq!(channel.max_payload_bytes, None);
}

#[test]
fn a_connection_sends_on_the_schema_channel_and_counts() {
    let profile = create_tcp_framed_transport_profile(
        "runtime",
        TcpFramedTransportProfileOptions::default(),
    );
    let mut connection = TcpFramedTransportConnection::new(Vec::<u8>::new(), profile);
    assert_eq!(connection.stats(), CultNetTransportStats::default());
    assert_eq!(
        connection.send("events", b"abc").err().unwrap().message(),
        "tcp_framed transport only supports the schema channel, got \"events\""
    );
    let frame = connection.send("schema", b"abc").unwrap();
    assert_eq!(frame, [0, 0, 0, 3, b'a', b'b', b'c']);
    connection.stream_mut().extend(&frame);
    connection.record_sent(frame.len() as u64);
    let mut yielded = encode_frame(b"answer").unwrap();
    yielded.extend(b"more");
    assert_eq!(
        connection.receive(&yielded[..9]).err().unwrap().message(),
        "failed to fill whole buffer"
    );
    assert_eq!(connection.stats().frames_received, 0);
    let received = connection.receive(&yielded).unwrap();
    assert_eq!(received.channel_id, "schema");
    assert_eq!(received.payload, b"answer");
    let stats = connection.stats();
    assert_eq!((stats.bytes_sent, stats.frames_sent), (7, 1));
    assert_eq!((stats.bytes_received, stats.frames_received), (10, 1));
    assert_eq!(connection.into_inner(), [0, 0, 0, 3, b'a', b'b', b'c']);
}
