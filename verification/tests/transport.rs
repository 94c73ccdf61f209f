use dorarobot::transport::backends::{clamp_timeout, decode_datagram, BleTransport, NearLinkTransport, SerialTransport};
use dorarobot::transport::framing::{FrameDecoder, FrameEncoder};
use dorarobot::transport::loopback::LoopbackTransport;
use dorarobot::transport::qos::{Channel, History, Qos, Reliability};
use dorarobot::transport::{LinkState, Transport, TransportError};
use std::time::Duration;

#[test]
fn roundtrip_across_split_reads() {
    let frame = FrameEncoder::encode(Channel::Control, b"hello");
    let mut dec = FrameDecoder::new();
    // feed byte-by-byte to prove the decoder reassembles partial reads.
    for b in &frame {
        assert!(dec.next_frame().is_none());
        dec.feed(&[*b]);
    }
    let (ch, payload) = dec.next_frame().expect("a frame");
    assert_eq!(ch, Channel::Control);
    assert_eq!(payload, b"hello");
    assert!(dec.next_frame().is_none());
}

#[test]
fn duplex_roundtrip() {
    let (mut a, mut b) = LoopbackTransport::pair();
    a.send(Channel::Control, b"cmd").unwrap();
    let got = b.recv(Duration::from_millis(50)).unwrap().unwrap();
    assert_eq!(got.channel, Channel::Control);
    assert_eq!(got.frame, b"cmd");

    b.send(Channel::Episode, b"end").unwrap();
    let got = a.recv(Duration::from_millis(50)).unwrap().unwrap();
    assert_eq!(got.channel, Channel::Episode);
    assert_eq!(got.frame, b"end");
}

#[test]
fn recv_times_out_when_empty() {
    let (_a, mut b) = LoopbackTransport::pair();
    assert!(b.recv(Duration::from_millis(1)).unwrap().is_none());
}

#[test]
fn recv_errors_when_peer_dropped() {
    let (a, mut b) = LoopbackTransport::pair();
    drop(a);
    assert!(matches!(
        b.recv(Duration::from_millis(1)),
        Err(TransportError::Closed) | Ok(None)
    ));
}

#[test]
fn encode_layout_is_length_channel_payload() {
    let frame = FrameEncoder::encode(Channel::Telemetry, &[9, 8, 7]);
    assert_eq!(frame, vec![0, 0, 0, 3, 3, 9, 8, 7]);
    let big = vec![0xAAu8; 0x0102_03];
    let frame = FrameEncoder::encode(Channel::Media, &big);
    assert_eq!(&frame[..5], &[0x00, 0x01, 0x02, 0x03, 4]);
    assert_eq!(frame.len(), 5 + big.len());
}

#[test]
fn decoder_keeps_trailing_bytes_and_handles_back_to_back_frames() {
    let mut stream = FrameEncoder::encode(Channel::Handshake, b"hi");
    stream.extend(FrameEncoder::encode(Channel::Feedback, b""));
    stream.extend(FrameEncoder::encode(Channel::Episode, b"xyz"));
    stream.extend_from_slice(&[0, 0]); // start of a fourth frame
    let mut dec = FrameDecoder::new();
    dec.feed(&stream);
    assert_eq!(dec.next_frame(), Some((Channel::Handshake, b"hi".to_vec())));
    assert_eq!(dec.next_frame(), Some((Channel::Feedback, vec![])));
    assert_eq!(dec.next_frame(), Some((Channel::Episode, b"xyz".to_vec())));
    assert_eq!(dec.next_frame(), None);
    dec.feed(&[0, 1, 1, 42]);
    assert_eq!(dec.next_frame(), Some((Channel::Control, vec![42])));
}

#[test]
fn decoder_stalls_on_unknown_channel() {
    let mut dec = FrameDecoder::default();
    dec.feed(&[0, 0, 0, 1, 9, 5]);
    assert_eq!(dec.next_frame(), None);
    dec.feed(&FrameEncoder::encode(Channel::Control, b"later"));
    assert_eq!(dec.next_frame(), None);
}

#[test]
fn channel_codes_roundtrip() {
    let all = [
        Channel::Handshake,
        Channel::Control,
        Channel::Feedback,
        Channel::Telemetry,
        Channel::Media,
        Channel::Episode,
    ];
    for (i, c) in all.iter().enumerate() {
        assert_eq!(c.as_u8() as usize, i);
        assert_eq!(Channel::from_u8(c.as_u8()), Some(*c));
    }
    assert_eq!(Channel::from_u8(6), None);
    assert_eq!(Channel::from_u8(255), None);
}

#[test]
fn qos_profiles() {
    let rt = Qos::realtime();
    assert_eq!(rt.reliability, Reliability::BestEffort);
    assert_eq!(rt.history, History::KeepLast(1));
    assert_eq!(rt.deadline_hz, None);
    assert_eq!(rt.priority, 200);
    let rel = Qos::reliable();
    assert_eq!(rel.reliability, Reliability::Reliable);
    assert_eq!(rel.history, History::KeepAll);
    assert_eq!(rel.deadline_hz, None);
    assert_eq!(rel.priority, 255);
}

#[test]
fn datagram_carries_one_frame() {
    let mut d = FrameEncoder::encode(Channel::Feedback, b"state");
    d.extend_from_slice(b"junk");
    let inb = decode_datagram(&d).unwrap();
    assert_eq!(inb.channel, Channel::Feedback);
    assert_eq!(inb.frame, b"state");
}

#[test]
fn truncated_datagram_is_bad_frame() {
    let d = FrameEncoder::encode(Channel::Feedback, b"state");
    match decode_datagram(&d[..d.len() - 1]) {
        Err(TransportError::BadFrame(m)) => assert_eq!(m, "truncated datagram"),
        other => panic!("unexpected {other:?}"),
    }
}

#[test]
fn stub_transports_are_unsupported_and_down() {
    let mut s = SerialTransport::new();
    assert!(matches!(s.send(Channel::Control, b"x"), Err(TransportError::Unsupported(_))));
    assert!(matches!(s.recv(Duration::from_millis(1)), Err(TransportError::Unsupported(_))));
    assert_eq!(s.link_state(), LinkState::Down);
    let mut b = BleTransport::default();
    assert!(matches!(b.send(Channel::Control, b"x"), Err(TransportError::Unsupported(_))));
    assert_eq!(b.link_state(), LinkState::Down);
    let mut n = NearLinkTransport::new();
    assert!(matches!(n.recv(Duration::from_millis(1)), Err(TransportError::Unsupported(_))));
    assert_eq!(n.link_state(), LinkState::Down);
}

#[test]
fn loopback_send_fails_closed_after_peer_drop() {
    let (mut a, b) = LoopbackTransport::pair();
    assert_eq!(a.link_state(), LinkState::Up);
    drop(b);
    assert!(matches!(a.send(Channel::Control, b"x"), Err(TransportError::Closed)));
}

#[test]
fn io_error_converts_to_io_variant() {
    let e: TransportError = std::io::Error::new(std::io::ErrorKind::Other, "boom").into();
    assert!(matches!(e, TransportError::Io(_)));
}

#[test]
fn clamp_timeout_lifts_zero_only() {
    assert_eq!(clamp_timeout(Duration::ZERO), Duration::from_millis(1));
    assert_eq!(clamp_timeout(Duration::from_millis(250)), Duration::from_millis(250));
}

#[test]
fn stub_errors_name_the_medium() {
    let mut s = SerialTransport::new();
    match s.send(Channel::Control, b"x") {
        Err(TransportError::Unsupported(w)) => assert_eq!(w, "USB/serial (use `serialport`/`nusb`)"),
        other => panic!("unexpected {:?}", other),
    }
    let mut b = BleTransport::new();
    match b.recv(Duration::ZERO) {
        Err(TransportError::Unsupported(w)) => assert_eq!(w, "Bluetooth LE (use `btleplug`)"),
        other => panic!("unexpected {:?}", other),
    }
    let mut n = NearLinkTransport::new();
    match n.send(Channel::Control, b"x") {
        Err(TransportError::Unsupported(w)) => assert_eq!(w, "NearLink (vendor SDK)"),
        other => panic!("unexpected {:?}", other),
    }
}

#[test]
fn io_error_message_prefix() {
    let e = TransportError::from(std::io::Error::new(std::io::ErrorKind::Other, "boom"));
    assert!(e.message().starts_with("io error: "));
    assert_eq!(e.message(), "io error: boom");
}
