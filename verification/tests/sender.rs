use kvsender::api::{Error, PutResponse, Timestamp};
use kvsender::call::Call;
use kvsender::sender::{is_success, set_error, Exchange, HTTPSender, SendError};

fn put_call() -> Call {
    let mut c = Call::put();
    {
        let args_header = c.args.mut_header();
        args_header.set_raft_id(1);
        args_header.set_user("root".to_owned());
        args_header.set_key(b"tkey".to_vec());
    }
    c
}

fn answered(status: u16, body: &[u8]) -> Exchange {
    Exchange::Answered { status, body: body.to_vec() }
}

#[test]
fn make_call() {
    let addr = "tcp://localhost:8080".to_owned().replace("tcp://", "http://");
    println!("http endpoint is {}", addr);

    let mut sender = HTTPSender::new(addr);

    let mut c = put_call();

    // The reply of a node whose clock reads 12345 and that reports no error.
    let body = [0x0a, 0x05, 0x12, 0x03, 0x08, 0xb9, 0x60];
    sender.send(&mut c, answered(200, &body));

    println!("ts={}", c.reply.mut_header().get_timestamp().get_wall_time());
    println!("error={}", c.reply.mut_header().get_error().get_message());
    assert!(!c.reply.mut_header().get_error().has_message());
    assert_eq!(c.reply.mut_header().get_timestamp().get_wall_time(), 12345);
    assert!(!c.reply.get_header().has_error());
}

#[test]
fn status_503_reports_unexpected_response_code() {
    let mut sender = HTTPSender::new("http://localhost:8080".to_owned());
    let mut c = put_call();
    sender.send(&mut c, answered(503, &[]));
    assert_eq!(c.reply.get_header().get_error().get_message(), "unexpected response code");
}

#[test]
fn unreachable_endpoint_reports_request_error() {
    let mut sender = HTTPSender::new("http://localhost:1".to_owned());
    let mut c = put_call();
    sender.send(&mut c, Exchange::Failed);
    assert!(c.reply.get_header().has_error());
    assert_eq!(c.reply.get_header().get_error().get_message(), "request error");
    assert!(c.reply.get_header().timestamp.is_none());
}

#[test]
fn body_of_a_failed_status_is_never_read() {
    let mut sender = HTTPSender::new("http://localhost:8080".to_owned());
    // A body that would set the timestamp, and one that would not decode.
    let good = [0x0a, 0x05, 0x12, 0x03, 0x08, 0xb9, 0x60];
    let bad = [0xff];
    for status in [100u16, 199, 201, 204, 301, 404, 500, 503] {
        for body in [&good[..], &bad[..], &[][..]] {
            let mut c = put_call();
            sender.send(&mut c, answered(status, body));
            assert_eq!(
                c.reply.get_header().get_error().get_message(),
                "unexpected response code"
            );
            assert!(c.reply.get_header().timestamp.is_none());
        }
    }
}

#[test]
fn only_200_is_success() {
    assert!(is_success(200));
    assert!(!is_success(201));
    assert!(!is_success(199));
    assert!(!is_success(0));
    assert!(!is_success(503));
}

#[test]
fn undecodable_body_reports_decode_failure() {
    let mut sender = HTTPSender::new("http://localhost:8080".to_owned());
    let mut c = put_call();
    // A header of five bytes is announced, two arrive.
    sender.send(&mut c, answered(200, &[0x0a, 0x05, 0x12, 0x03]));
    assert!(c.reply.get_header().has_error());
    let error = c.reply.get_header().get_error();
    assert!(error.has_message());
    assert!(!error.get_message().is_empty());
    assert_ne!(error.get_message(), "request error");
    assert_ne!(error.get_message(), "unexpected response code");
}

#[test]
fn truncated_body_says_what_the_decoder_said() {
    let mut sender = HTTPSender::new("http://localhost:8080".to_owned());
    let mut c = put_call();
    sender.send(&mut c, answered(200, &[0x0a]));
    assert_eq!(c.reply.get_header().get_error().get_message(), "unexpected EOF");
}

#[test]
fn failed_decode_merges_nothing() {
    let mut sender = HTTPSender::new("http://localhost:8080".to_owned());
    let mut c = put_call();
    c.reply.header.timestamp = Some(Timestamp { wall_time: Some(7), logical: None });
    // A good timestamp first, then a field cut short.
    sender.send(&mut c, answered(200, &[0x0a, 0x05, 0x12, 0x03, 0x08, 0xb9, 0x60, 0x0a]));
    assert!(c.reply.get_header().has_error());
    assert_eq!(c.reply.get_header().get_timestamp().get_wall_time(), 7);
}

#[test]
fn wrong_kind_for_a_known_field_is_a_decode_failure() {
    let mut sender = HTTPSender::new("http://localhost:8080".to_owned());
    let mut c = put_call();
    // Field 1 of the reply as a varint.
    sender.send(&mut c, answered(200, &[0x08, 0x01]));
    assert_eq!(c.reply.get_header().get_error().get_message(), "unexpected wire type");
}

#[test]
fn error_in_the_body_is_reflected() {
    let mut sender = HTTPSender::new("http://localhost:8080".to_owned());
    let mut c = put_call();
    let body = [0x0a, 0x08, 0x0a, 0x06, 0x0a, 0x04, b'b', b'o', b'o', b'm'];
    sender.send(&mut c, answered(200, &body));
    assert!(c.reply.get_header().has_error());
    assert_eq!(c.reply.get_header().get_error().get_message(), "boom");
}

#[test]
fn message_that_is_not_utf8_is_a_decode_failure() {
    let mut sender = HTTPSender::new("http://localhost:8080".to_owned());
    let mut c = put_call();
    let body = [0x0a, 0x06, 0x0a, 0x04, 0x0a, 0x02, 0xff, 0xfe];
    sender.send(&mut c, answered(200, &body));
    assert_eq!(c.reply.get_header().get_error().get_message(), "invalid UTF-8 sequence");
}

#[test]
fn empty_body_leaves_the_reply_as_it_was() {
    let mut sender = HTTPSender::new("http://localhost:8080".to_owned());
    let mut c = put_call();
    sender.send(&mut c, answered(200, &[]));
    assert!(!c.reply.get_header().has_error());
    assert!(c.reply.get_header().timestamp.is_none());
}

#[test]
fn unknown_fields_are_passed_over() {
    let mut sender = HTTPSender::new("http://localhost:8080".to_owned());
    let mut c = put_call();
    // Field 9 as a varint, field 10 as fixed32, then the header; in the
    // header field 3 (unknown here) and the timestamp.
    let body = [
        0x48, 0x05, 0x55, 1, 2, 3, 4, 0x0a, 0x08, 0x1a, 0x01, 0x00, 0x12, 0x03, 0x08, 0xb9, 0x60,
    ];
    sender.send(&mut c, answered(200, &body));
    assert!(!c.reply.get_header().has_error());
    assert_eq!(c.reply.get_header().get_timestamp().get_wall_time(), 12345);
}

#[test]
fn merge_keeps_what_the_body_does_not_mention() {
    let mut sender = HTTPSender::new("http://localhost:8080".to_owned());
    let mut c = put_call();
    c.reply.header.timestamp = Some(Timestamp { wall_time: Some(7), logical: Some(3) });
    // Only the logical part of the timestamp: 9.
    sender.send(&mut c, answered(200, &[0x0a, 0x04, 0x12, 0x02, 0x10, 0x09]));
    let ts = c.reply.get_header().get_timestamp();
    assert_eq!(ts.get_wall_time(), 7);
    assert_eq!(ts.get_logical(), 9);
}

#[test]
fn send_leaves_the_request_alone() {
    let mut sender = HTTPSender::new("http://localhost:8080".to_owned());
    let mut c = put_call();
    sender.send(&mut c, Exchange::Failed);
    assert_eq!(c.args.header.raft_id, Some(1));
    assert_eq!(c.args.header.user.as_deref(), Some("root"));
    assert_eq!(c.args.header.key.as_deref(), Some(&b"tkey"[..]));
    assert_eq!(sender.addr(), "http://localhost:8080");
}

#[test]
fn sender_is_reused_across_calls() {
    let mut sender = HTTPSender::new("http://localhost:8080".to_owned());
    let mut first = put_call();
    let mut second = put_call();
    sender.send(&mut first, Exchange::Failed);
    sender.send(&mut second, answered(200, &[0x0a, 0x05, 0x12, 0x03, 0x08, 0xb9, 0x60]));
    assert!(first.reply.get_header().has_error());
    assert!(!second.reply.get_header().has_error());
}

#[test]
fn a_later_failure_overwrites_an_earlier_error() {
    let mut reply = PutResponse::new();
    set_error(&mut reply, "first".to_owned());
    reply.header.timestamp = Some(Timestamp { wall_time: Some(1), logical: None });
    set_error(&mut reply, "second".to_owned());
    assert_eq!(reply.get_header().get_error().get_message(), "second");
    assert_eq!(reply.get_header().get_timestamp().get_wall_time(), 1);
}

#[test]
fn request_names_endpoint_content_type_and_body() {
    let sender = HTTPSender::new("http://localhost:8080".to_owned());
    let c = put_call();
    let post = sender.request(&c).unwrap();
    assert_eq!(post.url, "http://localhost:8080");
    assert_eq!(post.content_type, "application/x-protobuf");
    assert_eq!(
        post.body,
        vec![
            0x0a, 0x0e, 0x1a, 0x04, b't', b'k', b'e', b'y', 0x2a, 0x04, b'r', b'o', b'o', b't',
            0x38, 0x01
        ]
    );
}

#[test]
fn text_of_a_failure() {
    assert_eq!(SendError::WireError("incorrect tag".to_owned()).into_text(), "incorrect tag");
    let io = std::io::Error::new(std::io::ErrorKind::Other, "gone");
    assert_eq!(SendError::IoError(io).into_text(), "request error");
}

#[test]
fn error_accessors() {
    let mut e = Error::new();
    assert!(!e.has_message());
    assert_eq!(e.get_message(), "");
    e.set_message("x".to_owned());
    assert!(e.has_message());
    assert_eq!(e.get_message(), "x");
    assert_eq!(e.duplicate().get_message(), "x");
}

#[test]
fn an_answer_that_breaks_off_is_no_answer() {
    assert!(matches!(Exchange::answered(200, None), Exchange::Failed));
    assert!(matches!(Exchange::answered(503, None), Exchange::Failed));
    match Exchange::answered(200, Some(vec![1, 2])) {
        Exchange::Answered { status, body } => {
            assert_eq!(status, 200);
            assert_eq!(body, vec![1, 2]);
        }
        other => panic!("expected an answer, got {:?}", other),
    }
    let mut sender = HTTPSender::new("http://localhost:8080".to_owned());
    let mut c = put_call();
    sender.send(&mut c, Exchange::answered(200, None));
    assert_eq!(c.reply.get_header().get_error().get_message(), "request error");
}

#[test]
fn failure_inside_a_nested_message_says_what_the_decoder_said() {
    let mut sender = HTTPSender::new("http://localhost:8080".to_owned());
    // The header holds a timestamp field whose varint is cut short.
    let mut c = put_call();
    sender.send(&mut c, answered(200, &[0x0a, 0x04, 0x12, 0x02, 0x08, 0x80]));
    assert_eq!(c.reply.get_header().get_error().get_message(), "unexpected EOF");
    // The header is announced longer than the body.
    let mut c = put_call();
    sender.send(&mut c, answered(200, &[0x0a, 0x05, 0x12, 0x03]));
    assert_eq!(c.reply.get_header().get_error().get_message(), "unexpected EOF");
    // A group is no field that the reader takes.
    let mut c = put_call();
    sender.send(&mut c, answered(200, &[0x0b]));
    assert_eq!(c.reply.get_header().get_error().get_message(), "unexpected wire type");
    // The lone byte 0xff is a varint without an end.
    let mut c = put_call();
    sender.send(&mut c, answered(200, &[0xff]));
    assert_eq!(c.reply.get_header().get_error().get_message(), "unexpected EOF");
}

#[test]
fn every_request_can_be_posted() {
    let sender = HTTPSender::new("http://localhost:8080".to_owned());
    assert!(sender.request(&Call::put()).is_ok());
    let mut c = put_call();
    c.args.set_value(vec![0u8; 70000]);
    c.args.mut_header().set_raft_id(i64::MIN);
    let post = sender.request(&c).unwrap();
    assert_eq!(post.body.len(), 2 + 14 + 9 + 1 + 3 + 1 + 3 + 70000);
}
