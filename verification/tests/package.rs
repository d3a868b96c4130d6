use biliver::Package;

#[test]
fn new_package_is_empty_client_package() {
    let p = Package::new();
    assert_eq!(p.length, 16);
    assert_eq!(p.version, 0x0010_0001);
    assert_eq!(p.action, 0);
    assert_eq!(p.param, 1);
    assert!(p.body.is_none());
}

#[test]
fn heartbeat_package_fields() {
    let p = Package::heartbeat();
    assert_eq!(p.length, 16);
    assert_eq!(p.version, 0x0010_0001);
    assert_eq!(p.action, 2);
    assert_eq!(p.param, 1);
    assert!(p.body.is_none());
}

#[test]
fn join_room_body_and_length() {
    let p = Package::join_room(378088413, 10269709);
    assert_eq!(p.action, 7);
    assert_eq!(p.version, 0x0010_0001);
    assert_eq!(p.param, 1);
    let body = p.body.clone().unwrap();
    assert_eq!(body, "{\"roomid\":10269709,\"uid\":378088413}");
    assert_eq!(p.length, 16 + body.len());
}

#[test]
fn join_room_with_zero_ids() {
    let p = Package::join_room(0, 0);
    assert_eq!(p.body.as_deref(), Some("{\"roomid\":0,\"uid\":0}"));
    assert_eq!(p.length, 16 + 20);
}

#[test]
fn set_body_counts_bytes_not_chars() {
    let mut p = Package::new();
    p.set_body(Some("弹幕".to_string()));
    assert_eq!(p.length, 16 + 6);
    p.set_body(None);
    assert_eq!(p.length, 16);
    assert!(p.body.is_none());
}

#[test]
fn encode_heartbeat_bytes() {
    let bytes = Package::heartbeat().encode();
    assert_eq!(
        bytes,
        vec![0, 0, 0, 16, 0, 0x10, 0, 1, 0, 0, 0, 2, 0, 0, 0, 1]
    );
}

#[test]
fn encode_join_room_header_then_body() {
    let p = Package::join_room(1, 2);
    let bytes = p.encode();
    assert_eq!(bytes.len(), p.length);
    assert_eq!(&bytes[0..4], &[0, 0, 0, 36]);
    assert_eq!(&bytes[8..12], &[0, 0, 0, 7]);
    assert_eq!(&bytes[16..], "{\"roomid\":2,\"uid\":1}".as_bytes());
}

#[test]
fn decode_header_reads_big_endian_fields() {
    let header = [0x01, 0x02, 0x03, 0x04, 0, 0x10, 0, 1, 0, 0, 0, 5, 0xff, 0xff, 0xff, 0xff];
    let p = Package::decode_header(&header);
    assert_eq!(p.length, 0x0102_0304);
    assert_eq!(p.version, 0x0010_0001);
    assert_eq!(p.action, 5);
    assert_eq!(p.param, 0xffff_ffff);
    assert!(p.body.is_none());
}

#[test]
fn wire_roundtrip_of_join_room() {
    let sent = Package::join_room(42, 99);
    let bytes = sent.encode();
    let mut got = Package::decode_header(&bytes[..16]);
    assert_eq!(got.length, sent.length);
    assert_eq!(got.version, sent.version);
    assert_eq!(got.action, sent.action);
    assert_eq!(got.param, sent.param);
    let n = got.body_length();
    assert_eq!(n, bytes.len() - 16);
    got.set_received_body(&bytes[16..]);
    assert_eq!(got.body, sent.body);
}

#[test]
fn wire_roundtrip_of_heartbeat() {
    let sent = Package::heartbeat();
    let bytes = sent.encode();
    let mut got = Package::decode_header(&bytes);
    got.set_received_body(&bytes[16..]);
    assert_eq!(got.length, 16);
    assert_eq!(got.action, 2);
    assert!(got.body.is_none());
}

#[test]
fn received_body_invalid_utf8_is_error_text() {
    let mut p = Package::decode_header(&[0, 0, 0, 18, 0, 0x10, 0, 1, 0, 0, 0, 5, 0, 0, 0, 0]);
    p.set_received_body(&[0xff, 0xfe]);
    assert_eq!(p.body.as_deref(), Some("error decoding utf8"));
}

#[test]
fn received_body_ignored_for_bare_header() {
    let mut p = Package::decode_header(&[0, 0, 0, 16, 0, 0x10, 0, 1, 0, 0, 0, 8, 0, 0, 0, 1]);
    p.set_received_body(&[b'x']);
    assert!(p.body.is_none());
}
