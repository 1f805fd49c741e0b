use rcp_client::protocol::codec::encode;
use rcp_client::protocol::transport::{ReaderAction, ReaderEvent, WriterAction, WriterEvent, QUEUE_CAPACITY};
use rcp_client::protocol::{Message, MessageId, MessageType, ProtocolError, Transport};
use serde_json::Value;

fn numbered(n: u64) -> Message {
    Message { id: MessageId::from_u128(n as u128), message_type: MessageType::Event, timestamp: n, payload: Value::from(n) }
}

fn deliver(action: ReaderAction) -> Message {
    match action {
        ReaderAction::Deliver(message) => message,
        ReaderAction::Read(n) => panic!("asked for {} more bytes", n),
        ReaderAction::Stop(reason) => panic!("stopped: {:?}", reason),
    }
}

fn wanted(action: ReaderAction) -> u64 {
    match action {
        ReaderAction::Read(n) => n,
        ReaderAction::Deliver(message) => panic!("delivered {:?}", message),
        ReaderAction::Stop(reason) => panic!("stopped: {:?}", reason),
    }
}

#[test]
fn fresh_transport_waits_for_a_header() {
    let mut t = Transport::new();
    assert!(t.reader_running());
    assert!(t.writer_running());
    assert_eq!(t.buffered(), 0);
    assert_eq!(t.bytes_needed(), 4);
    assert_eq!(wanted(t.poll_reader()), 4);
    assert!(t.read_message().is_none());
}

#[test]
fn declared_length_beyond_the_input_waits_for_more() {
    let mut t = Transport::new();
    // The prefix declares 1000 bytes; 3 have arrived.
    assert_eq!(wanted(t.on_reader_event(ReaderEvent::Received(vec![0, 0, 0x03, 0xe8, b'{', b'"', b'i']))), 997);
    assert_eq!(t.buffered(), 7);
    assert!(t.read_message().is_none());
    assert_eq!(t.buffered(), 7);
    assert!(t.reader_running());
    assert_eq!(wanted(t.on_reader_event(ReaderEvent::Received(vec![b'd']))), 996);
}

#[test]
fn largest_declared_length_waits_without_overflow() {
    let mut t = Transport::new();
    assert_eq!(wanted(t.on_reader_event(ReaderEvent::Received(vec![0xff, 0xff, 0xff, 0xff]))), 0xffff_ffff);
    assert_eq!(wanted(t.on_reader_event(ReaderEvent::Received(vec![1]))), 0xffff_fffe);
}

#[test]
fn header_arriving_byte_by_byte() {
    let mut t = Transport::new();
    let framed = encode(&numbered(1)).unwrap();
    let mut remaining = framed.len() as u64;
    for (i, byte) in framed.iter().enumerate() {
        let action = t.on_reader_event(ReaderEvent::Received(vec![*byte]));
        remaining -= 1;
        if i + 1 < 4 {
            assert_eq!(wanted(action), (4 - (i + 1)) as u64);
        } else if remaining > 0 {
            assert_eq!(wanted(action), remaining);
        } else {
            assert_eq!(deliver(action).timestamp, 1);
        }
    }
    assert_eq!(t.buffered(), 0);
}

#[test]
fn frames_written_in_order_are_read_in_order() {
    let mut stream = Vec::new();
    for n in [1u64, 2, 3] {
        stream.extend(encode(&numbered(n)).unwrap());
    }
    // A fourth message of which the last byte is still missing.
    let fourth = encode(&numbered(4)).unwrap();
    stream.extend(&fourth[..fourth.len() - 1]);

    let mut t = Transport::new();
    let first = deliver(t.on_reader_event(ReaderEvent::Received(stream)));
    assert_eq!(first.timestamp, 1);
    assert_eq!(first.payload, Value::from(1u64));
    assert_eq!(deliver(t.on_reader_event(ReaderEvent::Delivered)).timestamp, 2);
    assert_eq!(deliver(t.on_reader_event(ReaderEvent::Delivered)).timestamp, 3);
    assert_eq!(wanted(t.on_reader_event(ReaderEvent::Delivered)), 1);
    let last = deliver(t.on_reader_event(ReaderEvent::Received(vec![fourth[fourth.len() - 1]])));
    assert_eq!(last.id, MessageId::from_u128(4));
    assert_eq!(wanted(t.on_reader_event(ReaderEvent::Delivered)), 4);
}

#[test]
fn read_message_takes_one_frame_at_a_time() {
    let mut stream = encode(&numbered(10)).unwrap();
    let one = stream.len();
    stream.extend(encode(&numbered(11)).unwrap());
    let mut t = Transport::new();
    let first = deliver(t.on_reader_event(ReaderEvent::Received(stream.clone())));
    assert_eq!(first.timestamp, 10);
    assert_eq!(t.buffered(), stream.len() - one);
    let second = t.read_message().unwrap().unwrap();
    assert_eq!(second.timestamp, 11);
    assert_eq!(t.buffered(), 0);
    assert!(t.read_message().is_none());
}

#[test]
fn malformed_body_stops_the_reader() {
    let mut t = Transport::new();
    let action = t.on_reader_event(ReaderEvent::Received(vec![0, 0, 0, 2, b'{', b'x', 9, 9]));
    match action {
        ReaderAction::Stop(Some(ProtocolError::MalformedPayload(_))) => {}
        other => panic!("{:?}", other),
    }
    assert!(!t.reader_running());
    // The frame is gone, what followed it is kept, and the writer is untouched.
    assert_eq!(t.buffered(), 2);
    assert!(t.writer_running());
    assert!(matches!(t.poll_reader(), ReaderAction::Stop(None)));
    assert!(matches!(t.on_reader_event(ReaderEvent::Received(vec![1])), ReaderAction::Stop(None)));
    assert_eq!(t.buffered(), 2);
}

#[test]
fn empty_body_is_malformed() {
    let mut t = Transport::new();
    assert!(matches!(
        t.on_reader_event(ReaderEvent::Received(vec![0, 0, 0, 0])),
        ReaderAction::Stop(Some(ProtocolError::MalformedPayload(_)))
    ));
}

#[test]
fn read_failure_stops_the_reader_with_a_transport_error() {
    let mut t = Transport::new();
    match t.on_reader_event(ReaderEvent::ReadFailed("unexpected end of file".to_string())) {
        ReaderAction::Stop(Some(error)) => {
            assert_eq!(error, ProtocolError::Transport("unexpected end of file".to_string()))
        }
        _ => panic!("reader went on"),
    }
    assert!(!t.reader_running());
    assert!(t.writer_running());
}

#[test]
fn closed_inbound_queue_stops_the_reader_quietly() {
    let mut t = Transport::new();
    let framed = encode(&numbered(1)).unwrap();
    let _ = deliver(t.on_reader_event(ReaderEvent::Received(framed)));
    assert!(matches!(t.on_reader_event(ReaderEvent::InboundClosed), ReaderAction::Stop(None)));
    assert!(!t.reader_running());
}

#[test]
fn writer_frames_each_message() {
    let mut t = Transport::new();
    let message = numbered(9);
    let expected = encode(&message).unwrap();
    match t.on_writer_event(WriterEvent::Dequeued(message.clone())) {
        WriterAction::Write(framed) => {
            assert_eq!(framed, expected);
            assert_eq!(framed, Transport::write_message(&message).unwrap());
        }
        _ => panic!("nothing to write"),
    }
    assert!(matches!(t.on_writer_event(WriterEvent::Written), WriterAction::AwaitMessage));
    assert!(t.writer_running());
}

#[test]
fn writer_stops_when_encoding_fails_and_reader_goes_on() {
    let mut t = Transport::new();
    let first = encode(&numbered(1)).unwrap();
    assert!(matches!(t.writer_after_encoding(Ok(first.clone())), WriterAction::Write(bytes) if bytes == first));
    let failure = ProtocolError::MalformedPayload("key must be a string".to_string());
    match t.writer_after_encoding(Err(failure.clone())) {
        WriterAction::Stop(Some(error)) => assert_eq!(error, failure),
        _ => panic!("writer went on"),
    }
    assert!(!t.writer_running());
    assert!(t.reader_running());
    // Later messages are not written, and what was delivered before still reads.
    assert!(matches!(t.on_writer_event(WriterEvent::Dequeued(numbered(2))), WriterAction::Stop(None)));
    assert!(matches!(t.writer_after_encoding(Ok(vec![1])), WriterAction::Stop(None)));
    assert_eq!(deliver(t.on_reader_event(ReaderEvent::Received(first))).timestamp, 1);
}

#[test]
fn writer_stops_on_closed_queue_and_on_socket_failure() {
    let mut t = Transport::new();
    assert!(matches!(t.on_writer_event(WriterEvent::OutboundClosed), WriterAction::Stop(None)));
    assert!(!t.writer_running());
    let mut t = Transport::new();
    match t.on_writer_event(WriterEvent::WriteFailed("broken pipe".to_string())) {
        WriterAction::Stop(Some(error)) => assert_eq!(error, ProtocolError::Transport("broken pipe".to_string())),
        _ => panic!("writer went on"),
    }
    assert!(!t.writer_running());
}

#[test]
fn queue_capacity_is_one_hundred() {
    assert_eq!(QUEUE_CAPACITY, 100);
}

#[test]
fn three_messages_dequeued_give_three_frames_in_order() {
    let mut t = Transport::new();
    let mut written = Vec::new();
    let mut expected = Vec::new();
    for n in [1u64, 2, 3] {
        let message = numbered(n);
        expected.extend(encode(&message).unwrap());
        match t.on_writer_event(WriterEvent::Dequeued(message)) {
            WriterAction::Write(framed) => written.extend(framed),
            other => panic!("{:?}", other),
        }
        assert!(matches!(t.on_writer_event(WriterEvent::Written), WriterAction::AwaitMessage));
    }
    assert_eq!(written, expected);
    // What was written is read by the peer as the three messages, in order.
    let mut peer = Transport::new();
    assert_eq!(deliver(peer.on_reader_event(ReaderEvent::Received(written))).timestamp, 1);
    assert_eq!(deliver(peer.on_reader_event(ReaderEvent::Delivered)).timestamp, 2);
    assert_eq!(deliver(peer.on_reader_event(ReaderEvent::Delivered)).timestamp, 3);
    assert_eq!(wanted(peer.on_reader_event(ReaderEvent::Delivered)), 4);
}

#[test]
fn write_message_always_frames_a_message_that_fits() {
    let message = Message::stamped(MessageId::from_u128(0), 0, MessageType::Ping, Value::Object(serde_json::Map::new()));
    let framed = Transport::write_message(&message).unwrap();
    assert_eq!(framed.len(), 4 + 86);
    assert_eq!(u32::from_be_bytes([framed[0], framed[1], framed[2], framed[3]]), 86);
    let mut peer = Transport::new();
    let read = deliver(peer.on_reader_event(ReaderEvent::Received(framed)));
    assert_eq!(read.id, message.id);
    assert_eq!(read.message_type, message.message_type);
    assert_eq!(read.timestamp, message.timestamp);
    assert_eq!(read.payload, message.payload);
    assert_eq!(peer.buffered(), 0);
}
