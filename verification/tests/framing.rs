use amqp_framing::frame::{decode, encode_header, DecodeOutcome};
use amqp_framing::{Frame, FrameHeader, ReadStep, Reader, SplitConnection, Writer, FRAME_END};

fn frame(frame_type: u8, payload: Vec<u8>) -> Frame {
    Frame {
        frame_type,
        payload,
    }
}

fn encode(channel: u16, f: &Frame) -> Vec<u8> {
    let mut w = Writer::new();
    w.write_frame(channel, f);
    w.take_pending()
}

#[test]
fn round_trip_frame() {
    let f = frame(1, vec![10, 20, 30]);
    let mut w = Writer::new();
    let n = w.write_frame(5, &f);
    assert_eq!(n, 11);
    let wire = w.take_pending();
    assert_eq!(wire.len(), 11);

    let mut r = Reader::new();
    match r.read_step(&wire) {
        ReadStep::Frame(channel, got) => {
            assert_eq!(channel, 5);
            assert_eq!(got, f);
        }
        other => panic!("expected a frame, got {other:?}"),
    }
    assert_eq!(r.buffered(), 0);
}

#[test]
fn round_trip_empty_payload() {
    let f = frame(8, vec![]);
    let wire = encode(0, &f);
    assert_eq!(wire.len(), 8);
    let mut r = Reader::new();
    match r.read_step(&wire) {
        ReadStep::Frame(channel, got) => {
            assert_eq!(channel, 0);
            assert_eq!(got, f);
        }
        other => panic!("expected a frame, got {other:?}"),
    }
}

#[test]
fn round_trip_max_channel() {
    let f = frame(2, vec![1]);
    let wire = encode(u16::MAX, &f);
    assert_eq!(wire[1], 0xFF);
    assert_eq!(wire[2], 0xFF);
    let mut r = Reader::new();
    match r.read_step(&wire) {
        ReadStep::Frame(channel, got) => {
            assert_eq!(channel, u16::MAX);
            assert_eq!(got, f);
        }
        other => panic!("expected a frame, got {other:?}"),
    }
}

#[test]
fn split_delivery_byte_by_byte() {
    let f = frame(3, vec![7, 8, 9, 10]);
    let wire = encode(9, &f);
    let mut r = Reader::new();
    for i in 0..wire.len() - 1 {
        match r.read_step(&wire[i..i + 1]) {
            ReadStep::NeedMore => {}
            other => panic!("expected to need more bytes, got {other:?}"),
        }
    }
    match r.read_step(&wire[wire.len() - 1..]) {
        ReadStep::Frame(channel, got) => {
            assert_eq!(channel, 9);
            assert_eq!(got, f);
        }
        other => panic!("expected a frame, got {other:?}"),
    }
    assert_eq!(r.buffered(), 0);
}

#[test]
fn split_delivery_uneven_chunks_keeps_trailing_bytes() {
    let f = frame(1, vec![1, 2, 3, 4, 5]);
    let mut wire = encode(4, &f);
    // The first three bytes of a following frame arrive in the same reads.
    wire.extend_from_slice(&[1, 0, 7]);
    let mut r = Reader::new();
    assert!(matches!(r.read_step(&wire[..2]), ReadStep::NeedMore));
    assert!(matches!(r.read_step(&wire[2..5]), ReadStep::NeedMore));
    match r.read_step(&wire[5..]) {
        ReadStep::Frame(channel, got) => {
            assert_eq!(channel, 4);
            assert_eq!(got, f);
        }
        other => panic!("expected a frame, got {other:?}"),
    }
    // Exactly the frame's bytes were consumed; the next frame's start is intact.
    assert_eq!(r.buffered(), 3);
}

#[test]
fn multi_frame_single_read() {
    let f1 = frame(1, vec![11, 12]);
    let f2 = frame(2, vec![13]);
    let mut wire = encode(1, &f1);
    wire.extend_from_slice(&encode(2, &f2));

    let mut r = Reader::new();
    match r.read_step(&wire) {
        ReadStep::Frame(channel, got) => {
            assert_eq!(channel, 1);
            assert_eq!(got, f1);
        }
        other => panic!("expected the first frame, got {other:?}"),
    }
    match r.read_step(&[]) {
        ReadStep::Frame(channel, got) => {
            assert_eq!(channel, 2);
            assert_eq!(got, f2);
        }
        other => panic!("expected the second frame, got {other:?}"),
    }
    assert!(matches!(r.read_step(&[]), ReadStep::PeerShutdown));
}

#[test]
fn corrupted_end_marker_is_reported() {
    let f = frame(1, vec![42]);
    let mut wire = encode(3, &f);
    let last = wire.len() - 1;
    assert_eq!(wire[last], FRAME_END);
    wire[last] ^= 0xFF;
    let mut r = Reader::new();
    assert!(matches!(r.read_step(&wire), ReadStep::Corrupted));
}

#[test]
fn invalid_frame_type_is_corrupted() {
    let mut r = Reader::new();
    assert!(matches!(r.read_step(&[9]), ReadStep::Corrupted));
    assert_eq!(decode(&[0, 0, 0]), DecodeOutcome::Corrupted);
}

#[test]
fn graceful_close_with_empty_buffer() {
    let mut r = Reader::new();
    assert!(matches!(r.read_step(&[]), ReadStep::PeerShutdown));
}

#[test]
fn abrupt_close_mid_frame() {
    let f = frame(1, vec![1, 2, 3]);
    let wire = encode(0, &f);
    let mut r = Reader::new();
    // Header received, payload truncated, then the peer disappears.
    assert!(matches!(r.read_step(&wire[..7]), ReadStep::NeedMore));
    assert!(matches!(r.read_step(&[]), ReadStep::ConnectionFailure));
}

#[test]
fn header_length_patch() {
    let f = frame(3, vec![0; 300]);
    let wire = encode(2, &f);
    // Decode the header independently of the frame decoder.
    assert_eq!(wire[0], 3);
    assert_eq!(wire[1], 0);
    assert_eq!(wire[2], 2);
    let length_bytes = &wire[3..7];
    assert_eq!(length_bytes, &[0, 0, 1, 44]);
    let decoded = ((length_bytes[0] as u32) << 24)
        | ((length_bytes[1] as u32) << 16)
        | ((length_bytes[2] as u32) << 8)
        | (length_bytes[3] as u32);
    assert_eq!(decoded, 300);
    assert_eq!(wire.len(), 308);
    assert_eq!(wire[307], FRAME_END);
}

#[test]
fn encode_header_exact_bytes() {
    let h = FrameHeader {
        frame_type: 1,
        channel: 0x0102,
        payload_size: 0x0A0B0C0D,
    };
    let bytes = encode_header(&h);
    assert_eq!(bytes, vec![1, 0x01, 0x02, 0x0A, 0x0B, 0x0C, 0x0D]);
}

#[test]
fn header_written_with_zero_placeholder() {
    let h = FrameHeader {
        frame_type: 8,
        channel: 0,
        payload_size: 0,
    };
    assert_eq!(encode_header(&h), vec![8, 0, 0, 0, 0, 0, 0]);
}

#[test]
fn decode_incomplete_short_input() {
    assert_eq!(decode(&[]), DecodeOutcome::Incomplete);
    assert_eq!(decode(&[1, 0, 0]), DecodeOutcome::Incomplete);
    // Full header announcing one payload byte, but nothing after it yet.
    assert_eq!(decode(&[1, 0, 0, 0, 0, 0, 1]), DecodeOutcome::Incomplete);
}

#[test]
fn decode_reports_exact_consumed_length() {
    let f = frame(1, vec![5, 6]);
    let mut wire = encode(7, &f);
    wire.extend_from_slice(&[0xAA, 0xBB]);
    match decode(&wire) {
        DecodeOutcome::Decoded(consumed, channel, got) => {
            assert_eq!(consumed, 10);
            assert_eq!(channel, 7);
            assert_eq!(got, f);
        }
        other => panic!("expected a decoded frame, got {other:?}"),
    }
}

#[test]
fn try_decode_keeps_partial_frame() {
    let f = frame(2, vec![1, 2, 3, 4]);
    let wire = encode(1, &f);
    let mut r = Reader::new();
    r.feed(&wire[..9]);
    assert_eq!(r.try_decode(), DecodeOutcome::Incomplete);
    assert_eq!(r.buffered(), 9);
    r.feed(&wire[9..]);
    match r.try_decode() {
        DecodeOutcome::Decoded(consumed, channel, got) => {
            assert_eq!(consumed, wire.len());
            assert_eq!(channel, 1);
            assert_eq!(got, f);
        }
        other => panic!("expected a decoded frame, got {other:?}"),
    }
    assert_eq!(r.buffered(), 0);
}

#[test]
fn writer_stages_handshake_bytes_unwrapped() {
    let mut w = Writer::new();
    let header = [b'A', b'M', b'Q', b'P', 0, 0, 9, 1];
    let n = w.write(&header);
    assert_eq!(n, 8);
    assert_eq!(w.buffered(), 8);
    let out = w.take_pending();
    assert_eq!(out, header.to_vec());
    assert_eq!(w.buffered(), 0);
    assert_eq!(w.take_pending(), Vec::<u8>::new());
}

#[test]
fn open_yields_independent_empty_halves() {
    let (r, w) = SplitConnection::open();
    assert_eq!(r.buffered(), 0);
    assert_eq!(w.buffered(), 0);
}

#[test]
fn get_frame_type_returns_tag() {
    let f = frame(8, vec![]);
    assert_eq!(f.get_frame_type(), 8);
}

#[test]
fn handshake_scenario() {
    // Client and server each own a Writer whose staged bytes are handed to
    // the peer's Reader, standing in for the transport.
    let (mut client_reader, mut client_writer) = SplitConnection::open();
    let mut server_writer = Writer::new();

    // C: protocol header (frame-less).
    let n = client_writer.write(&[b'A', b'M', b'Q', b'P', 0, 0, 9, 1]);
    assert_eq!(n, 8);
    let to_server = client_writer.take_pending();
    assert_eq!(&to_server[..4], b"AMQP");

    // S: Start. C: StartOk. S: Tune. C: TuneOk. C: Open. S: OpenOk.
    // C: Close. S: CloseOk. All method frames (type 1) on channel 0.
    let start = frame(1, vec![0, 10, 0, 10]);
    server_writer.write_frame(0, &start);
    let got = expect_frame(&mut client_reader, &mut server_writer);
    assert_eq!(got.0, 0);
    assert_eq!(got.1, start);

    let start_ok = frame(1, vec![0, 10, 0, 11]);
    client_writer.write_frame(0, &start_ok);

    // Tune carries channel-max, frame-max and heartbeat.
    let tune_payload = vec![0, 10, 0, 30, 7, 255, 0, 0, 1, 0, 0, 60];
    let tune = frame(1, tune_payload.clone());
    server_writer.write_frame(0, &tune);
    let got = expect_frame(&mut client_reader, &mut server_writer);
    assert_eq!(got.0, 0);
    assert_eq!(got.1.frame_type, 1);

    // TuneOk echoes the Tune-provided limits unchanged.
    let tune_ok_payload: Vec<u8> = [&[0, 10, 0, 31][..], &got.1.payload[4..]].concat();
    assert_eq!(&tune_ok_payload[4..], &tune_payload[4..]);
    client_writer.write_frame(0, &frame(1, tune_ok_payload));

    client_writer.write_frame(0, &frame(1, vec![0, 10, 0, 40]));
    let client_out = client_writer.take_pending();
    assert!(!client_out.is_empty());

    let open_ok = frame(1, vec![0, 10, 0, 41]);
    server_writer.write_frame(0, &open_ok);
    let got = expect_frame(&mut client_reader, &mut server_writer);
    assert_eq!((got.0, got.1), (0, open_ok));

    client_writer.write_frame(0, &frame(1, vec![0, 10, 0, 50]));
    let close_ok = frame(1, vec![0, 10, 0, 51]);
    server_writer.write_frame(0, &close_ok);
    let got = expect_frame(&mut client_reader, &mut server_writer);
    assert_eq!((got.0, got.1), (0, close_ok));

    // Orderly close: the server's stream ends with nothing buffered.
    assert!(matches!(client_reader.read_step(&[]), ReadStep::PeerShutdown));
}

fn expect_frame(reader: &mut Reader, peer: &mut Writer) -> (u16, Frame) {
    let wire = peer.take_pending();
    match reader.read_step(&wire) {
        ReadStep::Frame(channel, f) => (channel, f),
        other => panic!("expected a frame, got {other:?}"),
    }
}
