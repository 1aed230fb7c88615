use kvsender::api::{PutRequest, PutResponse, RequestHeader};
use kvsender::codec::{
    decode_put_response, encode_put_request, encode_request_header, int32_of, int64_of,
};
use kvsender::sender::SendError;
use kvsender::wire::{parse_fields, FieldValue};

fn bytes_of(value: &FieldValue) -> Vec<u8> {
    match value {
        FieldValue::Bytes(b) => b.clone(),
        other => panic!("not length-delimited: {:?}", other),
    }
}

#[test]
fn empty_header_encodes_to_nothing() {
    assert_eq!(encode_request_header(&RequestHeader::new()).unwrap(), Vec::<u8>::new());
}

#[test]
fn empty_request_still_carries_its_header() {
    assert_eq!(encode_put_request(&PutRequest::new()).unwrap(), vec![0x0a, 0x00]);
}

#[test]
fn header_fields_are_written_in_order() {
    let mut h = RequestHeader::new();
    h.set_raft_id(300);
    h.set_key(vec![0, 255]);
    assert_eq!(encode_request_header(&h).unwrap(), vec![0x1a, 0x02, 0x00, 0xff, 0x38, 0xac, 0x02]);
}

#[test]
fn negative_raft_id_takes_ten_bytes() {
    let mut h = RequestHeader::new();
    h.set_raft_id(-1);
    let mut expected = vec![0x38];
    expected.extend([0xffu8; 9]);
    expected.push(0x01);
    assert_eq!(encode_request_header(&h).unwrap(), expected);
}

#[test]
fn value_is_a_nested_message() {
    let mut request = PutRequest::new();
    request.set_value(b"v".to_vec());
    assert_eq!(
        encode_put_request(&request).unwrap(),
        vec![0x0a, 0x00, 0x12, 0x03, 0x0a, 0x01, b'v']
    );
}

#[test]
fn request_round_trip() {
    let mut request = PutRequest::new();
    request.mut_header().set_raft_id(1);
    request.mut_header().set_user("root".to_owned());
    request.mut_header().set_key(b"tkey".to_vec());
    request.set_value(b"payload".to_vec());
    let encoded = encode_put_request(&request).unwrap();

    let top = parse_fields(&encoded).unwrap();
    assert_eq!(top.len(), 2);
    assert_eq!(top[0].number, 1);
    assert_eq!(top[1].number, 2);

    let header = parse_fields(&bytes_of(&top[0].value)).unwrap();
    assert_eq!(header.len(), 3);
    assert_eq!(header[0].number, 3);
    assert_eq!(bytes_of(&header[0].value), b"tkey".to_vec());
    assert_eq!(header[1].number, 5);
    assert_eq!(bytes_of(&header[1].value), b"root".to_vec());
    assert_eq!(header[2].number, 7);
    assert!(matches!(header[2].value, FieldValue::Varint(1)));

    let value = parse_fields(&bytes_of(&top[1].value)).unwrap();
    assert_eq!(value.len(), 1);
    assert_eq!(value[0].number, 1);
    assert_eq!(bytes_of(&value[0].value), b"payload".to_vec());
}

#[test]
fn request_round_trip_through_the_outside_reader() {
    let mut request = PutRequest::new();
    request.mut_header().set_raft_id(-5);
    request.mut_header().set_user("r\u{f6}t".to_owned());
    let encoded = encode_put_request(&request).unwrap();

    let mut input = protobuf::CodedInputStream::from_bytes(&encoded);
    let (number, _) = input.read_tag_unpack().unwrap();
    assert_eq!(number, 1);
    let header = input.read_bytes().unwrap();
    assert!(input.eof().unwrap());

    let mut input = protobuf::CodedInputStream::from_bytes(&header);
    let (number, _) = input.read_tag_unpack().unwrap();
    assert_eq!(number, 5);
    assert_eq!(input.read_string().unwrap(), "r\u{f6}t");
    let (number, _) = input.read_tag_unpack().unwrap();
    assert_eq!(number, 7);
    assert_eq!(input.read_int64().unwrap(), -5);
    assert!(input.eof().unwrap());
}

#[test]
fn reply_written_by_the_outside_writer_decodes() {
    let mut timestamp = Vec::new();
    {
        let mut out = protobuf::CodedOutputStream::vec(&mut timestamp);
        out.write_int64(1, -12345).unwrap();
        out.write_int32(2, -2).unwrap();
        out.flush().unwrap();
    }
    let mut error = Vec::new();
    {
        let mut out = protobuf::CodedOutputStream::vec(&mut error);
        out.write_string(1, "key not found").unwrap();
        out.flush().unwrap();
    }
    let mut header = Vec::new();
    {
        let mut out = protobuf::CodedOutputStream::vec(&mut header);
        out.write_bytes(1, &error).unwrap();
        out.write_bytes(2, &timestamp).unwrap();
        out.flush().unwrap();
    }
    let mut body = Vec::new();
    {
        let mut out = protobuf::CodedOutputStream::vec(&mut body);
        out.write_bytes(1, &header).unwrap();
        out.flush().unwrap();
    }
    let reply = decode_put_response(&PutResponse::new(), &body).unwrap();
    assert_eq!(reply.get_header().get_error().get_message(), "key not found");
    assert_eq!(reply.get_header().get_timestamp().get_wall_time(), -12345);
    assert_eq!(reply.get_header().get_timestamp().get_logical(), -2);
}

#[test]
fn decode_does_not_touch_the_reply_it_starts_from() {
    let start = PutResponse::new();
    let reply = decode_put_response(&start, &[0x0a, 0x05, 0x12, 0x03, 0x08, 0xb9, 0x60]).unwrap();
    assert_eq!(reply.get_header().get_timestamp().get_wall_time(), 12345);
    assert!(start.get_header().timestamp.is_none());
}

#[test]
fn decode_failures_carry_a_message() {
    let cases: [&[u8]; 5] = [
        &[0x0a],
        &[0x00],
        &[0x0b, 0x00],
        &[0x0a, 0x02, 0x12, 0x05],
        &[0x0a, 0x04, 0x12, 0x02, 0x09, 0x01],
    ];
    for body in cases {
        match decode_put_response(&PutResponse::new(), body) {
            Err(SendError::WireError(text)) => assert!(!text.is_empty()),
            other => panic!("expected a wire failure, got {:?}", other),
        }
    }
}

#[test]
fn a_field_with_number_zero_is_an_incorrect_tag() {
    match decode_put_response(&PutResponse::new(), &[0x00]) {
        Err(SendError::WireError(text)) => assert_eq!(text, "incorrect tag"),
        other => panic!("expected a wire failure, got {:?}", other),
    }
}

#[test]
fn parse_fields_reads_each_kind() {
    let bytes = [
        0x08, 0x96, 0x01, // 1: varint 150
        0x11, 1, 0, 0, 0, 0, 0, 0, 0, // 2: fixed64 1
        0x1a, 0x02, b'h', b'i', // 3: bytes
        0x25, 2, 0, 0, 0, // 4: fixed32 2
    ];
    let fields = parse_fields(&bytes).unwrap();
    assert_eq!(fields.len(), 4);
    assert_eq!(fields[0].number, 1);
    assert!(matches!(fields[0].value, FieldValue::Varint(150)));
    assert_eq!(fields[1].number, 2);
    assert!(matches!(fields[1].value, FieldValue::Fixed64(1)));
    assert_eq!(fields[2].number, 3);
    assert_eq!(bytes_of(&fields[2].value), b"hi".to_vec());
    assert_eq!(fields[3].number, 4);
    assert!(matches!(fields[3].value, FieldValue::Fixed32(2)));
    assert!(parse_fields(&[]).unwrap().is_empty());
    assert!(parse_fields(&bytes[..bytes.len() - 1]).is_err());
}

#[test]
fn varints_as_signed_integers() {
    assert_eq!(int64_of(0), 0);
    assert_eq!(int64_of(12345), 12345);
    assert_eq!(int64_of(0x7fff_ffff_ffff_ffff), i64::MAX);
    assert_eq!(int64_of(0x8000_0000_0000_0000), i64::MIN);
    assert_eq!(int64_of(u64::MAX), -1);
    assert_eq!(int32_of(0), 0);
    assert_eq!(int32_of(0x7fff_ffff), i32::MAX);
    assert_eq!(int32_of(0x8000_0000), i32::MIN);
    assert_eq!(int32_of(0xffff_ffff), -1);
    assert_eq!(int32_of(u64::MAX), -1);
    assert_eq!(int32_of(0x1_0000_0005), 5);
}

#[test]
fn parse_fields_hands_back_the_readers_text() {
    assert_eq!(parse_fields(&[0x0a]).unwrap_err(), "unexpected EOF");
    assert_eq!(parse_fields(&[0x00]).unwrap_err(), "incorrect tag");
    assert_eq!(parse_fields(&[0x0a, 0x03, 0x01]).unwrap_err(), "unexpected EOF");
    assert_eq!(
        parse_fields(&[0x08, 0x01, 0x08, 0xff, 0xff, 0xff, 0xff, 0xff, 0xff, 0xff, 0xff, 0xff, 0xff, 0xff])
            .unwrap_err(),
        "incorrect varint"
    );
}
