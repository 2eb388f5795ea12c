use protocol_builder::cell::HandshakeCell;
use protocol_builder::errors::ProtocolError;
use protocol_builder::payload::{Payload, PayloadType};

#[test]
fn last_committed_acknowledgment_wins() {
    let cell = HandshakeCell::new(PayloadType::Empty, PayloadType::U32, Payload::Empty);
    assert_eq!(cell.read_acknowledgment(), None);
    cell.write_acknowledgment(Payload::U32(1));
    cell.write_acknowledgment(Payload::U32(2));
    assert_eq!(cell.read_acknowledgment(), Some(Payload::U32(2)));
}

#[test]
fn every_handle_sees_the_same_round_state() {
    let cell = HandshakeCell::new(
        PayloadType::Bytes32,
        PayloadType::U32,
        Payload::Bytes32([5u8; 32]),
    );
    let other = cell.clone();
    other.write_acknowledgment(Payload::U32(7));
    assert_eq!(cell.read_acknowledgment(), Some(Payload::U32(7)));
    assert_eq!(other.read_request(), Payload::Bytes32([5u8; 32]));
}

#[test]
fn cell_codec_calls_use_the_canonical_encoding() {
    let cell = HandshakeCell::new(PayloadType::U32, PayloadType::U32, Payload::U32(9));
    assert_eq!(cell.req_encode(), vec![9, 0, 0, 0]);
    assert_eq!(cell.ack_encode(), Vec::<u8>::new());
    assert_eq!(cell.ack_decode(&[42, 0, 0, 0]), Ok(()));
    assert_eq!(cell.ack_encode(), vec![42, 0, 0, 0]);
    assert_eq!(cell.read_acknowledgment(), Some(Payload::U32(42)));
}

#[test]
fn cell_decode_failure_leaves_the_state_unchanged() {
    let cell = HandshakeCell::new(PayloadType::Empty, PayloadType::U32, Payload::Empty);
    cell.write_acknowledgment(Payload::U32(3));
    assert_eq!(cell.ack_decode(&[1, 2]), Err(ProtocolError::CodecError));
    assert_eq!(cell.read_acknowledgment(), Some(Payload::U32(3)));
}
