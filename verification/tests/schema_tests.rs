use protocol_builder::errors::ProtocolError;
use protocol_builder::payload::{Payload, PayloadType};
use protocol_builder::schema::Schema;
use protocol_builder::traits::{HandshakeGetter, HandshakeProtocol, RequestBuilder};

fn musig_like_schema() -> Schema {
    let mut s = Schema::new();
    assert!(s.add_round(
        "NonceCommitment".to_string(),
        PayloadType::Empty,
        PayloadType::Bytes32
    ));
    assert!(s.add_round(
        "NonceReveal".to_string(),
        PayloadType::Bytes32,
        PayloadType::Bytes32
    ));
    assert!(s.add_round(
        "PartialSignature".to_string(),
        PayloadType::Bytes32,
        PayloadType::Bytes64
    ));
    assert!(s.add_round(
        "AggregateSignature".to_string(),
        PayloadType::Bytes64,
        PayloadType::Bytes64
    ));
    assert!(s.add_round(
        "Finality".to_string(),
        PayloadType::Bytes64,
        PayloadType::U32
    ));
    s
}

#[test]
fn listing_preserves_declaration_order() {
    let s = musig_like_schema();
    assert_eq!(
        s.list_round_names(),
        vec![
            "NonceCommitment".to_string(),
            "NonceReveal".to_string(),
            "PartialSignature".to_string(),
            "AggregateSignature".to_string(),
            "Finality".to_string(),
        ]
    );
}

#[test]
fn listing_payload_types_pairs_request_and_acknowledgment() {
    let mut s = Schema::new();
    assert!(s.add_round("A".to_string(), PayloadType::Empty, PayloadType::U32));
    assert!(s.add_round("B".to_string(), PayloadType::U32, PayloadType::U32));
    assert_eq!(
        s.list_payload_types(),
        vec![
            ("Empty".to_string(), "U32".to_string()),
            ("U32".to_string(), "U32".to_string()),
        ]
    );
}

#[test]
fn duplicate_round_names_are_rejected_whole() {
    let mut s = Schema::new();
    assert!(s.add_round("A".to_string(), PayloadType::Empty, PayloadType::U32));
    assert!(!s.add_round("A".to_string(), PayloadType::U32, PayloadType::U32));
    assert_eq!(s.list_round_names(), vec!["A".to_string()]);
}

#[test]
fn nested_schema_is_spliced_depth_first_at_reference_point() {
    let mut sub = Schema::new();
    assert!(sub.add_round("SubOne".to_string(), PayloadType::U32, PayloadType::U32));
    assert!(sub.add_round(
        "SubTwo".to_string(),
        PayloadType::Bytes32,
        PayloadType::U32
    ));

    let mut s = Schema::new();
    assert!(s.add_round("First".to_string(), PayloadType::Empty, PayloadType::U32));
    assert!(s.nest(sub));
    assert!(s.add_round("Last".to_string(), PayloadType::U32, PayloadType::Empty));

    assert_eq!(
        s.list_round_names(),
        vec![
            "First".to_string(),
            "SubOne".to_string(),
            "SubTwo".to_string(),
            "Last".to_string(),
        ]
    );
}

#[test]
fn nesting_a_clashing_sub_schema_changes_nothing() {
    let mut sub = Schema::new();
    assert!(sub.add_round("Fresh".to_string(), PayloadType::U32, PayloadType::U32));
    assert!(sub.add_round("First".to_string(), PayloadType::U32, PayloadType::U32));

    let mut s = Schema::new();
    assert!(s.add_round("First".to_string(), PayloadType::Empty, PayloadType::U32));
    assert!(!s.nest(sub));
    assert_eq!(s.list_round_names(), vec!["First".to_string()]);
}

#[test]
fn unknown_round_is_rejected_for_any_bytes() {
    let s = musig_like_schema();
    assert!(matches!(
        s.req_decode("NotARoundName", &[]),
        Err(ProtocolError::UnknownRound)
    ));
    assert!(matches!(
        s.req_decode("NotARoundName", &[1, 2, 3, 4]),
        Err(ProtocolError::UnknownRound)
    ));
}

#[test]
fn request_decode_builds_an_instance_without_acknowledgment() {
    let s = musig_like_schema();
    let inst = s.req_decode("NonceReveal", &[9u8; 32]).unwrap();
    assert_eq!(inst.round_name().as_str(), "NonceReveal");
    assert_eq!(*inst.get_req_ref(), Payload::Bytes32([9u8; 32]));
    assert_eq!(*inst.get_ack_ref(), None);
}

#[test]
fn request_decode_propagates_codec_errors() {
    let s = musig_like_schema();
    assert!(matches!(
        s.req_decode("NonceReveal", &[9u8; 31]),
        Err(ProtocolError::CodecError)
    ));
    assert!(matches!(
        s.req_decode("NonceCommitment", &[0]),
        Err(ProtocolError::CodecError)
    ));
}

#[test]
fn acknowledgment_decode_keeps_the_round_tag() {
    let s = musig_like_schema();
    let mut inst = s.req_decode("Finality", &[3u8; 64]).unwrap();
    assert_eq!(inst.round_name().as_str(), "Finality");
    assert!(inst.ack_decode(&[42, 0, 0, 0]).is_ok());
    assert_eq!(inst.round_name().as_str(), "Finality");
    assert_eq!(*inst.get_ack_ref(), Some(Payload::U32(42)));
    assert!(inst.ack_decode(&[1, 2, 3]).is_err());
    assert_eq!(inst.round_name().as_str(), "Finality");
    assert_eq!(*inst.get_ack_ref(), Some(Payload::U32(42)));
}

#[test]
fn concrete_two_round_scenario() {
    let mut s = Schema::new();
    assert!(s.add_round("A".to_string(), PayloadType::Empty, PayloadType::U32));
    assert!(s.add_round("B".to_string(), PayloadType::U32, PayloadType::U32));

    let mut inst = protocol_builder::instance::Instance::new(
        "A".to_string(),
        PayloadType::Empty,
        PayloadType::U32,
        Payload::Empty,
    );
    assert_eq!(inst.req_encode(), Vec::<u8>::new());
    assert_eq!(inst.ack_encode(), Vec::<u8>::new());

    let reply = Payload::U32(42);
    let wire = protocol_builder::codec::encode_payload(&reply);
    assert!(inst.ack_decode(&wire).is_ok());
    assert_eq!(inst.ack_encode(), vec![42, 0, 0, 0]);

    let remote = s.req_decode("B", &[7, 0, 0, 0]).unwrap();
    assert_eq!(*remote.get_req_ref(), Payload::U32(7));
    assert_eq!(remote.req_encode(), vec![7, 0, 0, 0]);
}
