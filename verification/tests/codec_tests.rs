use protocol_builder::codec::{decode_payload, encode_payload, round_trip};
use protocol_builder::errors::ProtocolError;
use protocol_builder::payload::{payload_type_name, Payload, PayloadType};

#[test]
fn empty_encodes_to_zero_bytes() {
    let bytes = encode_payload(&Payload::Empty);
    assert_eq!(bytes, Vec::<u8>::new());
}

#[test]
fn u32_encodes_little_endian_fixed_width() {
    let bytes = encode_payload(&Payload::U32(0x0102_0304));
    assert_eq!(bytes, vec![0x04, 0x03, 0x02, 0x01]);
}

#[test]
fn u32_forty_two_encodes_to_four_bytes() {
    let bytes = encode_payload(&Payload::U32(42));
    assert_eq!(bytes, vec![42, 0, 0, 0]);
}

#[test]
fn encoding_matches_bincode_directly() {
    let cfg = bincode::config::standard()
        .with_little_endian()
        .with_fixed_int_encoding()
        .with_no_limit();
    let ours = encode_payload(&Payload::U32(0xDEAD_BEEF));
    let theirs = bincode::encode_to_vec(0xDEAD_BEEFu32, cfg).unwrap();
    assert_eq!(ours, theirs);

    let block = [7u8; 32];
    let ours = encode_payload(&Payload::Bytes32(block));
    let theirs = bincode::encode_to_vec(block, cfg).unwrap();
    assert_eq!(ours, theirs);
}

#[test]
fn bytes32_encodes_raw_in_order() {
    let mut block = [0u8; 32];
    for (i, b) in block.iter_mut().enumerate() {
        *b = i as u8;
    }
    let bytes = encode_payload(&Payload::Bytes32(block));
    assert_eq!(bytes.len(), 32);
    for (i, b) in bytes.iter().enumerate() {
        assert_eq!(*b, i as u8);
    }
}

#[test]
fn bytes64_encodes_raw_in_order() {
    let mut block = [0u8; 64];
    for (i, b) in block.iter_mut().enumerate() {
        *b = (63 - i) as u8;
    }
    let bytes = encode_payload(&Payload::Bytes64(block));
    assert_eq!(bytes.len(), 64);
    assert_eq!(bytes[0], 63);
    assert_eq!(bytes[63], 0);
}

#[test]
fn decode_reads_little_endian() {
    let r = decode_payload(PayloadType::U32, &[0x04, 0x03, 0x02, 0x01]);
    assert_eq!(r, Ok(Payload::U32(0x0102_0304)));
}

#[test]
fn decode_rejects_truncated_input() {
    assert_eq!(
        decode_payload(PayloadType::U32, &[1, 2, 3]),
        Err(ProtocolError::CodecError)
    );
    assert_eq!(
        decode_payload(PayloadType::Bytes32, &[0u8; 31]),
        Err(ProtocolError::CodecError)
    );
    assert_eq!(
        decode_payload(PayloadType::Bytes64, &[0u8; 63]),
        Err(ProtocolError::CodecError)
    );
}

#[test]
fn decode_rejects_trailing_bytes() {
    assert_eq!(
        decode_payload(PayloadType::Empty, &[0]),
        Err(ProtocolError::CodecError)
    );
    assert_eq!(
        decode_payload(PayloadType::U32, &[1, 2, 3, 4, 5]),
        Err(ProtocolError::CodecError)
    );
}

#[test]
fn round_trip_reproduces_every_payload_shape() {
    let mut sig = [0u8; 64];
    sig[0] = 0xAA;
    sig[63] = 0x55;
    let payloads = [
        Payload::Empty,
        Payload::U32(0),
        Payload::U32(u32::MAX),
        Payload::Bytes32([0x11; 32]),
        Payload::Bytes64(sig),
    ];
    for p in payloads {
        assert_eq!(round_trip(&p), Ok(p));
        let bytes = encode_payload(&p);
        assert_eq!(decode_payload(p.payload_type(), &bytes), Ok(p));
    }
}

#[test]
fn payload_type_names_are_stable() {
    assert_eq!(payload_type_name(PayloadType::Empty), "Empty");
    assert_eq!(payload_type_name(PayloadType::U32), "U32");
    assert_eq!(payload_type_name(PayloadType::Bytes32), "Bytes32");
    assert_eq!(payload_type_name(PayloadType::Bytes64), "Bytes64");
}
