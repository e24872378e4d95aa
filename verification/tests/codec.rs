use delete_codec::CodecError;
use delete_codec::CustomSpuKey;
use delete_codec::CustomSpuSpec;
use delete_codec::DeleteRequest;
use delete_codec::DeleteSpec;
use delete_codec::SpuGroupSpec;
use delete_codec::TopicSpec;

fn round_trip(req: &DeleteRequest, version: i16) -> DeleteRequest {
    let mut buf: Vec<u8> = Vec::new();
    req.encode(&mut buf, version).expect("encode must succeed");
    assert_eq!(buf.len(), req.write_size(version), "size must match the bytes produced");
    let mut out = DeleteRequest::default();
    let mut pos: usize = 0;
    out.decode(&buf, &mut pos, version).expect("decode must succeed");
    assert_eq!(pos, buf.len(), "decode must consume exactly the encoded bytes");
    out
}

#[test]
fn round_trip_topic() {
    let req = DeleteRequest::Topic(String::from("orders"));
    for version in [0i16, 1, 7] {
        assert_eq!(round_trip(&req, version), req);
    }
}

#[test]
fn round_trip_custom_spu_by_id() {
    for id in [0i32, 1, 42, -1, -123456, i32::MAX, i32::MIN] {
        let req = DeleteRequest::CustomSpu(CustomSpuKey::Id(id));
        assert_eq!(round_trip(&req, 1), req);
    }
}

#[test]
fn round_trip_custom_spu_by_name() {
    let req = DeleteRequest::CustomSpu(CustomSpuKey::Name(String::from("spu-7")));
    assert_eq!(round_trip(&req, 1), req);
}

#[test]
fn round_trip_spu_group() {
    let req = DeleteRequest::SpuGroup(String::from("group-a"));
    assert_eq!(round_trip(&req, 1), req);
}

#[test]
fn round_trip_empty_name() {
    let req = DeleteRequest::Topic(String::new());
    assert_eq!(round_trip(&req, 1), req);
}

#[test]
fn round_trip_unicode_name() {
    let req = DeleteRequest::Topic(String::from("th\u{e9}\u{2603}\u{1f600}"));
    assert_eq!(round_trip(&req, 1), req);
}

#[test]
fn size_is_exact_for_each_variant() {
    // label "topic" is 2 + 5 bytes, the name "orders" 2 + 6 bytes
    assert_eq!(DeleteRequest::Topic(String::from("orders")).write_size(1), 15);
    // label "custom-spu" is 2 + 10 bytes, an id 1 + 4 bytes
    assert_eq!(DeleteRequest::CustomSpu(CustomSpuKey::Id(9)).write_size(1), 17);
    // a key by name is 1 byte marker + 2 + 3 bytes
    assert_eq!(
        DeleteRequest::CustomSpu(CustomSpuKey::Name(String::from("spu"))).write_size(1),
        18
    );
    // label "spu-group" is 2 + 9 bytes, the name "g" 2 + 1 bytes
    assert_eq!(DeleteRequest::SpuGroup(String::from("g")).write_size(1), 14);
}

#[test]
fn labels_are_pairwise_distinct() {
    assert_ne!(TopicSpec::label(), CustomSpuSpec::label());
    assert_ne!(TopicSpec::label(), SpuGroupSpec::label());
    assert_ne!(CustomSpuSpec::label(), SpuGroupSpec::label());
}

#[test]
fn type_string_matches_the_variant_label() {
    assert_eq!(DeleteRequest::Topic(String::from("t")).type_string(), "topic");
    assert_eq!(
        DeleteRequest::CustomSpu(CustomSpuKey::Id(1)).type_string(),
        "custom-spu"
    );
    assert_eq!(DeleteRequest::SpuGroup(String::from("g")).type_string(), "spu-group");
}

#[test]
fn default_is_the_documented_placeholder() {
    assert_eq!(
        DeleteRequest::default(),
        DeleteRequest::CustomSpu(CustomSpuKey::Id(0))
    );
}

#[test]
fn scenario_topic_orders_at_version_one() {
    let req = DeleteRequest::Topic(String::from("orders"));
    let mut buf: Vec<u8> = Vec::new();
    req.encode(&mut buf, 1).unwrap();
    let mut out = DeleteRequest::default();
    let mut pos: usize = 0;
    out.decode(&buf, &mut pos, 1).unwrap();
    assert_eq!(out, DeleteRequest::Topic(String::from("orders")));
}

#[test]
fn bogus_tag_is_rejected_and_target_kept() {
    // tag "Bogus": 2-byte length prefix, then the 5 ASCII bytes
    let mut buf: Vec<u8> = vec![0, 5];
    buf.extend_from_slice(b"Bogus");
    // whatever payload follows must not matter: the tag is authoritative
    buf.extend_from_slice(&[1, 2, 3]);
    let mut target = DeleteRequest::Topic(String::from("keep-me"));
    let mut pos: usize = 0;
    let err = target.decode(&buf, &mut pos, 1).unwrap_err();
    assert_eq!(err, CodecError::UnknownType(String::from("Bogus")));
    assert_eq!(target, DeleteRequest::Topic(String::from("keep-me")));
}

#[test]
fn truncated_buffers_fail_cleanly() {
    let mut target = DeleteRequest::default();
    let before = DeleteRequest::default();

    // empty buffer: no room for the tag's length prefix
    let mut pos: usize = 0;
    let err = target.decode(&Vec::new(), &mut pos, 1).unwrap_err();
    assert_eq!(err, CodecError::UnexpectedEnd);

    // length prefix cut in half
    let mut pos: usize = 0;
    let err = target.decode(&vec![0], &mut pos, 1).unwrap_err();
    assert_eq!(err, CodecError::UnexpectedEnd);

    // tag claims five bytes but only two follow
    let mut pos: usize = 0;
    let err = target.decode(&vec![0, 5, b'B', b'o'], &mut pos, 1).unwrap_err();
    assert_eq!(err, CodecError::UnexpectedEnd);

    // valid topic tag, payload missing entirely
    let mut buf: Vec<u8> = vec![0, 5];
    buf.extend_from_slice(b"topic");
    let mut pos: usize = 0;
    let err = target.decode(&buf, &mut pos, 1).unwrap_err();
    assert_eq!(err, CodecError::UnexpectedEnd);

    assert_eq!(target, before, "failures must leave the target unchanged");
}

#[test]
fn invalid_utf8_tag_fails_cleanly() {
    let buf: Vec<u8> = vec![0, 2, 0xff, 0xfe];
    let mut target = DeleteRequest::default();
    let mut pos: usize = 0;
    let err = target.decode(&buf, &mut pos, 1).unwrap_err();
    assert_eq!(err, CodecError::InvalidUtf8);
    assert_eq!(target, DeleteRequest::default());
}

#[test]
fn unknown_key_variant_fails_cleanly() {
    let mut buf: Vec<u8> = vec![0, 10];
    buf.extend_from_slice(b"custom-spu");
    buf.push(9); // no such key variant marker
    let mut target = DeleteRequest::default();
    let mut pos: usize = 0;
    let err = target.decode(&buf, &mut pos, 1).unwrap_err();
    assert_eq!(err, CodecError::UnknownKeyVariant(9));
    assert_eq!(target, DeleteRequest::default());
}

#[test]
fn oversize_name_is_rejected_before_writing() {
    let name: String = "x".repeat(70_000);
    let req = DeleteRequest::Topic(name);
    let mut buf: Vec<u8> = Vec::new();
    let err = req.encode(&mut buf, 1).unwrap_err();
    assert_eq!(err, CodecError::StringTooLong);
    assert!(buf.is_empty(), "nothing may be written for a rejected request");
}

#[test]
fn decode_leaves_trailing_bytes_unread() {
    let req = DeleteRequest::SpuGroup(String::from("tail"));
    let mut buf: Vec<u8> = Vec::new();
    req.encode(&mut buf, 1).unwrap();
    let encoded = buf.len();
    buf.extend_from_slice(&[7, 7, 7]);
    let mut out = DeleteRequest::default();
    let mut pos: usize = 0;
    out.decode(&buf, &mut pos, 1).unwrap();
    assert_eq!(out, req);
    assert_eq!(pos, encoded);
}

#[test]
fn decode_resumes_at_the_given_position() {
    let first = DeleteRequest::Topic(String::from("one"));
    let second = DeleteRequest::CustomSpu(CustomSpuKey::Id(-5));
    let mut buf: Vec<u8> = Vec::new();
    first.encode(&mut buf, 1).unwrap();
    second.encode(&mut buf, 1).unwrap();
    let mut pos: usize = 0;
    let mut out = DeleteRequest::default();
    out.decode(&buf, &mut pos, 1).unwrap();
    assert_eq!(out, first);
    out.decode(&buf, &mut pos, 1).unwrap();
    assert_eq!(out, second);
    assert_eq!(pos, buf.len());
}

#[test]
fn conversion_builds_the_topic_variant() {
    let req = TopicSpec::into_request(String::from("orders"));
    assert_eq!(req, DeleteRequest::Topic(String::from("orders")));
    assert_eq!(round_trip(&req, 1), req);
}

#[test]
fn conversion_builds_the_custom_spu_variant() {
    let req = CustomSpuSpec::into_request(CustomSpuKey::Id(42));
    assert_eq!(req, DeleteRequest::CustomSpu(CustomSpuKey::Id(42)));
    assert_eq!(round_trip(&req, 1), req);

    let req = CustomSpuSpec::into_request(CustomSpuKey::Name(String::from("unit-9")));
    assert_eq!(req, DeleteRequest::CustomSpu(CustomSpuKey::Name(String::from("unit-9"))));
    assert_eq!(round_trip(&req, 1), req);
}

#[test]
fn conversion_builds_the_spu_group_variant() {
    let req = SpuGroupSpec::into_request(String::from("group-b"));
    assert_eq!(req, DeleteRequest::SpuGroup(String::from("group-b")));
    assert_eq!(round_trip(&req, 1), req);
}
