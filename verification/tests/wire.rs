use bytes::BytesMut;
use inhibitor::Signal;
use inhibitor::codec::CodecError;
use inhibitor::codec::SignalCodec;
use inhibitor::codec::append_frame;
use inhibitor::codec::encode_signal_payload;
use inhibitor::codec::parse_signal_payload;

#[test]
fn round_trip_each_variant() {
    for signal in [Signal::Query, Signal::On, Signal::Off] {
        let mut codec = SignalCodec {};
        let mut buf = BytesMut::new();
        codec.encode(signal, &mut buf).unwrap();
        let decoded = codec.decode(&mut buf).unwrap();
        assert_eq!(decoded, Some(signal));
        assert_eq!(buf.len(), 0);
    }
}

#[test]
fn payload_round_trip() {
    for signal in [Signal::Query, Signal::On, Signal::Off] {
        let payload = encode_signal_payload(&signal);
        assert_eq!(payload.len(), 1);
        assert_eq!(parse_signal_payload(&payload), Some(signal));
    }
}

#[test]
fn partial_frame_resumes() {
    let mut codec = SignalCodec {};
    let mut full = BytesMut::new();
    codec.encode(Signal::On, &mut full).unwrap();
    let frame: Vec<u8> = full.to_vec();
    assert_eq!(frame.len(), 2);

    // Feed the length byte only: need more data, buffer untouched.
    let mut buf = BytesMut::new();
    buf.extend_from_slice(&frame[..1]);
    assert_eq!(codec.decode(&mut buf).unwrap(), None);
    assert_eq!(&buf[..], &frame[..1]);

    // Feed the payload plus surplus: one signal out, exactly 1+N consumed,
    // the surplus left untouched.
    buf.extend_from_slice(&frame[1..]);
    buf.extend_from_slice(&[7, 8, 9]);
    assert_eq!(codec.decode(&mut buf).unwrap(), Some(Signal::On));
    assert_eq!(&buf[..], &[7, 8, 9]);
}

#[test]
fn empty_buffer_needs_more_data() {
    let mut codec = SignalCodec {};
    let mut buf = BytesMut::new();
    assert_eq!(codec.decode(&mut buf).unwrap(), None);
    assert_eq!(buf.len(), 0);
}

#[test]
fn oversized_payload_rejected() {
    let payload: Vec<u8> = vec![0; 256];
    let mut buf = BytesMut::new();
    let r = append_frame(&payload, &mut buf);
    assert_eq!(r, Err(CodecError::FrameTooLarge));
    assert_eq!(buf.len(), 0);
}

#[test]
fn largest_payload_accepted() {
    let payload: Vec<u8> = vec![9; 255];
    let mut buf = BytesMut::new();
    append_frame(&payload, &mut buf).unwrap();
    assert_eq!(buf.len(), 256);
    assert_eq!(buf[0], 255);
    assert_eq!(&buf[1..], &payload[..]);
}

#[test]
fn malformed_payload_is_protocol_error() {
    let mut codec = SignalCodec {};
    let mut buf = BytesMut::new();
    buf.extend_from_slice(&[1, 9]);
    assert_eq!(codec.decode(&mut buf), Err(CodecError::Malformed));
    // The stream is corrupt, not short: the buffer was not consumed.
    assert_eq!(&buf[..], &[1, 9]);
}

#[test]
fn empty_payload_frame_is_protocol_error() {
    // A length byte of zero is a complete frame whose payload is empty,
    // which is not a valid Signal encoding.
    let mut codec = SignalCodec {};
    let mut buf = BytesMut::new();
    buf.extend_from_slice(&[0]);
    assert_eq!(codec.decode(&mut buf), Err(CodecError::Malformed));
}

#[test]
fn two_frames_decode_in_order() {
    let mut codec = SignalCodec {};
    let mut buf = BytesMut::new();
    codec.encode(Signal::Off, &mut buf).unwrap();
    codec.encode(Signal::Query, &mut buf).unwrap();
    assert_eq!(codec.decode(&mut buf).unwrap(), Some(Signal::Off));
    assert_eq!(codec.decode(&mut buf).unwrap(), Some(Signal::Query));
    assert_eq!(buf.len(), 0);
}
