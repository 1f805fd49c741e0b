//! The wire format.
//!
//! A message travels as a frame: four bytes that give the length of the body
//! as a big-endian number, then the body, which is the JSON text of an object
//! with the members `id`, `type`, `timestamp` and `payload`.

use crate::protocol::error::{ProtocolError, ProtocolErrorView};
use crate::protocol::id::{id_reads_back, uuid_parse, uuid_text, MessageId};
use crate::protocol::json::{
    error_text, from_bytes, json_of, json_parse, json_text, object_insert, same_document,
    to_bytes, value_as_str, value_as_u64, value_get, value_object, value_text, value_u64, Json,
};
use crate::protocol::message::{Message, MessageType, MessageView};
use vstd::prelude::*;
use vstd::string::*;

verus! {

/// The number of bytes in a length prefix.
pub const HEADER_LEN: usize = 4;

/// The largest body a frame can declare.
pub const MAX_BODY_LEN: usize = 0xffff_ffff;

/// The object that stands for a message on the wire.
pub open spec fn envelope(message: MessageView) -> Json {
    Json::empty_object().with("id"@, Json::Text(uuid_text(message.id))).with(
        "type"@,
        Json::Text(message.message_type.token()),
    ).with("timestamp"@, Json::Integer(message.timestamp as int)).with("payload"@, message.payload)
}

/// The identifier that a document carries, if it carries a readable one.
pub open spec fn document_id(document: Json) -> Option<u128> {
    match document.field("id"@) {
        Some(Json::Text(text)) => uuid_parse(text),
        _ => None,
    }
}

/// The message kind that a document carries, if it carries a known one.
pub open spec fn document_type(document: Json) -> Option<MessageType> {
    match document.field("type"@) {
        Some(Json::Text(token)) => MessageType::of_token(token),
        _ => None,
    }
}

/// The timestamp that a document carries, if it carries one that fits.
pub open spec fn document_timestamp(document: Json) -> Option<u64> {
    match document.field("timestamp"@) {
        Some(number) => number.as_u64(),
        None => None,
    }
}

/// The message that a document stands for; `None` where a member is missing
/// or has the wrong form. Members other than the four are ignored.
pub open spec fn message_of(document: Json) -> Option<MessageView> {
    match (
        document_id(document),
        document_type(document),
        document_timestamp(document),
        document.field("payload"@),
    ) {
        (Some(id), Some(message_type), Some(timestamp), Some(payload)) => Some(
            MessageView { id, message_type, timestamp, payload },
        ),
        _ => None,
    }
}

/// What is wrong with a document that stands for no message: the first
/// member, in the order `id`, `type`, `timestamp`, `payload`, that is missing
/// or malformed.
pub open spec fn envelope_defect(document: Json) -> Seq<char> {
    if document_id(document) is None {
        "missing or invalid field `id`"@
    } else if document_type(document) is None {
        "missing or invalid field `type`"@
    } else if document_timestamp(document) is None {
        "missing or invalid field `timestamp`"@
    } else {
        "missing field `payload`"@
    }
}

/// The message that a frame body stands for; `None` where the body is no
/// JSON text or its document stands for no message.
pub open spec fn decoded(body: Seq<u8>) -> Option<MessageView> {
    match json_parse(body) {
        Some(document) => message_of(document),
        None => None,
    }
}

/// Whether the JSON library reads the text it writes for a document back as
/// that document.
pub open spec fn reads_back(document: Json) -> bool {
    json_parse(json_text(document)) == Some(document)
}

/// The four bytes that declare a body of `length` bytes.
pub open spec fn length_prefix(length: u32) -> Seq<u8> {
    seq![
        (length / 0x100_0000) as u8,
        (length / 0x1_0000 % 0x100) as u8,
        (length / 0x100 % 0x100) as u8,
        (length % 0x100) as u8,
    ]
}

/// The body length that the first four bytes of a buffer declare.
pub open spec fn declared_length(buffer: Seq<u8>) -> nat
    recommends
        buffer.len() >= HEADER_LEN,
{
    (buffer[0] as nat) * 0x100_0000 + (buffer[1] as nat) * 0x1_0000 + (buffer[2] as nat) * 0x100
        + (buffer[3] as nat)
}

/// The frame that carries a body.
pub open spec fn frame(body: Seq<u8>) -> Seq<u8>
    recommends
        body.len() <= MAX_BODY_LEN,
{
    length_prefix(body.len() as u32) + body
}

/// Whether a buffer starts with a whole frame.
pub open spec fn frame_complete(buffer: Seq<u8>) -> bool {
    buffer.len() >= HEADER_LEN && buffer.len() >= HEADER_LEN + declared_length(buffer)
}

/// The body of the frame at the start of a buffer.
pub open spec fn first_body(buffer: Seq<u8>) -> Seq<u8>
    recommends
        frame_complete(buffer),
{
    buffer.subrange(HEADER_LEN as int, HEADER_LEN + declared_length(buffer))
}

/// What follows the frame at the start of a buffer.
pub open spec fn after_first(buffer: Seq<u8>) -> Seq<u8>
    recommends
        frame_complete(buffer),
{
    buffer.subrange(HEADER_LEN + declared_length(buffer), buffer.len() as int)
}

/// How many more bytes a buffer needs before it starts with a whole frame:
/// the rest of the header, or the rest of the declared body.
pub open spec fn bytes_missing(buffer: Seq<u8>) -> nat
    recommends
        !frame_complete(buffer),
{
    if buffer.len() < HEADER_LEN {
        (HEADER_LEN - buffer.len()) as nat
    } else {
        (HEADER_LEN + declared_length(buffer) - buffer.len()) as nat
    }
}

/// The bodies of the whole frames at the start of a buffer, in their order.
pub open spec fn frames_in(buffer: Seq<u8>) -> Seq<Seq<u8>>
    decreases buffer.len(),
{
    if frame_complete(buffer) {
        seq![first_body(buffer)] + frames_in(after_first(buffer))
    } else {
        Seq::empty()
    }
}

/// What is left of a buffer after its whole frames: empty, or the start of a
/// frame that has not fully arrived.
pub open spec fn residue(buffer: Seq<u8>) -> Seq<u8>
    decreases buffer.len(),
{
    if frame_complete(buffer) {
        residue(after_first(buffer))
    } else {
        buffer
    }
}

/// The bytes on the wire after the given bodies were framed and written one
/// after the other.
pub open spec fn stream_of(bodies: Seq<Seq<u8>>) -> Seq<u8>
    decreases bodies.len(),
{
    if bodies.len() == 0 {
        Seq::empty()
    } else {
        frame(bodies[0]) + stream_of(bodies.subrange(1, bodies.len() as int))
    }
}

/// A length prefix declares the length it was made from.
pub proof fn lemma_prefix_declares(length: u32, tail: Seq<u8>)
    ensures
        declared_length(length_prefix(length) + tail) == length,
        (length_prefix(length) + tail).len() == HEADER_LEN + tail.len(),
{
    let buffer = length_prefix(length) + tail;
    assert(buffer[0] == length_prefix(length)[0]);
    assert(buffer[1] == length_prefix(length)[1]);
    assert(buffer[2] == length_prefix(length)[2]);
    assert(buffer[3] == length_prefix(length)[3]);
}

/// A frame followed by anything splits into its body and what follows: the
/// frame is whole, and neither part gains or loses a byte.
pub proof fn lemma_frame_splits(body: Seq<u8>, tail: Seq<u8>)
    requires
        body.len() <= MAX_BODY_LEN,
    ensures
        frame_complete(frame(body) + tail),
        first_body(frame(body) + tail) == body,
        after_first(frame(body) + tail) == tail,
{
    let buffer = frame(body) + tail;
    assert(buffer =~= length_prefix(body.len() as u32) + (body + tail));
    lemma_prefix_declares(body.len() as u32, body + tail);
    assert(first_body(buffer) =~= body);
    assert(after_first(buffer) =~= tail);
}

/// A frame of which any byte is still missing is not taken for a whole
/// frame: while fewer bytes have arrived than the prefix declares, the
/// reader hands out nothing, keeps what has arrived, and waits for more; once
/// the prefix is there it knows exactly how many.
pub proof fn lemma_partial_frame_waits(body: Seq<u8>, arrived: int)
    requires
        body.len() <= MAX_BODY_LEN,
        0 <= arrived < frame(body).len(),
    ensures
        !frame_complete(frame(body).subrange(0, arrived)),
        frames_in(frame(body).subrange(0, arrived)) == Seq::<Seq<u8>>::empty(),
        residue(frame(body).subrange(0, arrived)) == frame(body).subrange(0, arrived),
        0 < bytes_missing(frame(body).subrange(0, arrived)) <= frame(body).len() - arrived,
        arrived >= HEADER_LEN ==> bytes_missing(frame(body).subrange(0, arrived)) == frame(
            body,
        ).len() - arrived,
{
    let whole = frame(body);
    lemma_prefix_declares(body.len() as u32, body);
    let part = whole.subrange(0, arrived);
    if arrived >= HEADER_LEN {
        assert(part[0] == whole[0]);
        assert(part[1] == whole[1]);
        assert(part[2] == whole[2]);
        assert(part[3] == whole[3]);
        assert(declared_length(part) == declared_length(whole));
    }
}

/// Frames written one after the other are read back one by one, in the order
/// written, and nothing is left over.
pub proof fn lemma_frames_keep_order(bodies: Seq<Seq<u8>>)
    requires
        forall|i: int| 0 <= i < bodies.len() ==> (#[trigger] bodies[i]).len() <= MAX_BODY_LEN,
    ensures
        frames_in(stream_of(bodies)) == bodies,
        residue(stream_of(bodies)) == Seq::<u8>::empty(),
    decreases bodies.len(),
{
    if bodies.len() == 0 {
        assert(!frame_complete(stream_of(bodies)));
        assert(frames_in(stream_of(bodies)) =~= bodies);
    } else {
        let rest = bodies.subrange(1, bodies.len() as int);
        assert forall|i: int| 0 <= i < rest.len() implies (#[trigger] rest[i]).len()
            <= MAX_BODY_LEN by {
            assert(rest[i] == bodies[i + 1]);
        }
        lemma_frames_keep_order(rest);
        lemma_frame_splits(bodies[0], stream_of(rest));
        assert(frames_in(stream_of(bodies)) =~= seq![bodies[0]] + rest);
        assert(seq![bodies[0]] + rest =~= bodies);
    }
}

/// A message is found again in its envelope, provided its identifier reads
/// back from its text.
pub proof fn lemma_envelope_round_trip(message: MessageView)
    requires
        id_reads_back(message.id),
    ensures
        message_of(envelope(message)) == Some(message),
{
    reveal_strlit("id");
    reveal_strlit("type");
    reveal_strlit("timestamp");
    reveal_strlit("payload");
    assert("id"@.len() == 2);
    assert("type"@.len() == 4);
    assert("timestamp"@.len() == 9);
    assert("payload"@.len() == 7);
    MessageType::lemma_token_round_trip(message.message_type);
    let document = envelope(message);
    assert(document.field("id"@) == Some(Json::Text(uuid_text(message.id))));
    assert(document.field("type"@) == Some(Json::Text(message.message_type.token())));
    assert(document.field("timestamp"@) == Some(Json::Integer(message.timestamp as int)));
    assert(document.field("payload"@) == Some(message.payload));
}

/// A message that is encoded and then decoded is the same message: the
/// frame written for it is whole, holds nothing else, and its body decodes
/// to the message, field by field, payload included.
///
/// This holds of every message whose identifier and whose envelope the
/// `uuid` and JSON libraries read back from the text they write for them,
/// and whose JSON text fits a frame.
pub proof fn lemma_round_trip(message: MessageView)
    requires
        id_reads_back(message.id),
        reads_back(envelope(message)),
        json_text(envelope(message)).len() <= MAX_BODY_LEN,
    ensures
        frame_complete(frame(json_text(envelope(message)))),
        after_first(frame(json_text(envelope(message)))) == Seq::<u8>::empty(),
        decoded(first_body(frame(json_text(envelope(message))))) == Some(message),
{
    let body = json_text(envelope(message));
    lemma_frame_splits(body, Seq::empty());
    assert(frame(body) + Seq::<u8>::empty() =~= frame(body));
    lemma_envelope_round_trip(message);
}

/// The JSON object that stands for a message. Reading the object gives the
/// message back.
pub fn message_to_json(message: &Message) -> (r: serde_json::Value)
    ensures
        json_of(r) == envelope(message@),
        message_of(json_of(r)) == Some(message@),
        id_reads_back(message@.id),
{
    let mut document = value_object();
    let id_text = message.id.to_string();
    object_insert(&mut document, "id", value_text(id_text.as_str()));
    object_insert(&mut document, "type", value_text(message.message_type.as_str()));
    object_insert(&mut document, "timestamp", value_u64(message.timestamp));
    object_insert(&mut document, "payload", message.payload.clone());
    proof {
        lemma_envelope_round_trip(message@);
    }
    document
}

/// Reads a message from the JSON object that stands for it. A document that
/// stands for no message is rejected as malformed, with its defect.
pub fn message_from_json(document: &serde_json::Value) -> (r: Result<Message, ProtocolError>)
    ensures
        match message_of(json_of(*document)) {
            Some(message) => r matches Ok(read) && read@ == message,
            None => r matches Err(error) && error@ == ProtocolErrorView::MalformedPayload(
                envelope_defect(json_of(*document)),
            ),
        },
{
    let id = match value_get(document, "id") {
        Some(member) => match value_as_str(member) {
            Some(text) => MessageId::parse_str(text),
            None => None,
        },
        None => None,
    };
    let id = match id {
        Some(id) => id,
        None => {
            return Err(
                ProtocolError::MalformedPayload(String::from_str("missing or invalid field `id`")),
            );
        },
    };
    let message_type = match value_get(document, "type") {
        Some(member) => match value_as_str(member) {
            Some(token) => MessageType::from_token(token),
            None => None,
        },
        None => None,
    };
    let message_type = match message_type {
        Some(message_type) => message_type,
        None => {
            return Err(
                ProtocolError::MalformedPayload(
                    String::from_str("missing or invalid field `type`"),
                ),
            );
        },
    };
    let timestamp = match value_get(document, "timestamp") {
        Some(member) => value_as_u64(member),
        None => None,
    };
    let timestamp = match timestamp {
        Some(timestamp) => timestamp,
        None => {
            return Err(
                ProtocolError::MalformedPayload(
                    String::from_str("missing or invalid field `timestamp`"),
                ),
            );
        },
    };
    match value_get(document, "payload") {
        Some(payload) => Ok(Message { id, message_type, timestamp, payload: payload.clone() }),
        None => Err(ProtocolError::MalformedPayload(String::from_str("missing field `payload`"))),
    }
}

/// Puts the length prefix before a serialized body. A body too long for the
/// prefix is rejected as malformed.
pub fn frame_body(body: Vec<u8>) -> (r: Result<Vec<u8>, ProtocolError>)
    ensures
        match r {
            Ok(framed) => body@.len() <= MAX_BODY_LEN && framed@ == frame(body@),
            Err(error) => body@.len() > MAX_BODY_LEN && error@
                == ProtocolErrorView::MalformedPayload("message body exceeds the frame limit"@),
        },
{
    let mut body = body;
    if body.len() > MAX_BODY_LEN {
        return Err(
            ProtocolError::MalformedPayload(
                String::from_str("message body exceeds the frame limit"),
            ),
        );
    }
    let length: u32 = body.len() as u32;
    let mut framed: Vec<u8> = Vec::new();
    framed.push((length / 0x100_0000) as u8);
    framed.push((length / 0x1_0000 % 0x100) as u8);
    framed.push((length / 0x100 % 0x100) as u8);
    framed.push((length % 0x100) as u8);
    assert(framed@ =~= length_prefix(length));
    framed.append(&mut body);
    Ok(framed)
}

/// Frames the outcome of serializing a message body: the text is framed, a
/// failure of the serializer is reported as malformed, with its description.
pub fn frame_serialized(serialized: Result<Vec<u8>, String>) -> (r: Result<Vec<u8>, ProtocolError>)
    ensures
        match serialized {
            Ok(body) => match r {
                Ok(framed) => body@.len() <= MAX_BODY_LEN && framed@ == frame(body@),
                Err(error) => body@.len() > MAX_BODY_LEN && error@
                    == ProtocolErrorView::MalformedPayload(
                    "message body exceeds the frame limit"@,
                ),
            },
            Err(detail) => r matches Err(error) && error@ == ProtocolErrorView::MalformedPayload(
                detail@,
            ),
        },
{
    match serialized {
        Ok(body) => frame_body(body),
        Err(detail) => Err(ProtocolError::MalformedPayload(detail)),
    }
}

/// Encodes a message as one frame.
///
/// Encoding succeeds exactly when the JSON text of the message's envelope
/// fits a frame, and the frame then holds that text and nothing else. A text
/// too long for a frame is `MalformedPayload`. Where the JSON library reads
/// its own text back, decoding the frame gives the message back.
pub fn encode(message: &Message) -> (r: Result<Vec<u8>, ProtocolError>)
    ensures
        r is Ok <==> json_text(envelope(message@)).len() <= MAX_BODY_LEN,
        match r {
            Ok(framed) => {
                let body = json_text(envelope(message@));
                &&& framed@ == frame(body)
                &&& frame_complete(framed@)
                &&& first_body(framed@) == body
                &&& after_first(framed@) == Seq::<u8>::empty()
                &&& reads_back(envelope(message@)) ==> decoded(first_body(framed@)) == Some(
                    message@,
                )
            },
            Err(error) => error@ == ProtocolErrorView::MalformedPayload(
                "message body exceeds the frame limit"@,
            ),
        },
{
    let document = message_to_json(message);
    let serialized = match to_bytes(&document) {
        Ok(body) => Ok(body),
        Err(error) => Err(error_text(&error)),
    };
    let r = frame_serialized(serialized);
    proof {
        if r is Ok {
            let body = json_text(envelope(message@));
            lemma_frame_splits(body, Seq::empty());
            assert(frame(body) + Seq::<u8>::empty() =~= frame(body));
            if reads_back(envelope(message@)) {
                lemma_round_trip(message@);
            }
        }
    }
    r
}

/// Encodes a message as one frame and makes sure, by reading the text
/// back, that decoding the frame gives the message back.
///
/// It succeeds exactly on the messages whose JSON text fits a frame and is
/// read back by the JSON library as the document it was written from. The
/// frame is then the one that [`encode`] gives, and its body decodes to the
/// message. A text too long for a frame and a text that is not read back are
/// both `MalformedPayload`.
pub fn encode_checked(message: &Message) -> (r: Result<Vec<u8>, ProtocolError>)
    ensures
        r is Ok <==> json_text(envelope(message@)).len() <= MAX_BODY_LEN && reads_back(
            envelope(message@),
        ),
        match r {
            Ok(framed) => {
                &&& framed@ == frame(json_text(envelope(message@)))
                &&& frame_complete(framed@)
                &&& after_first(framed@) == Seq::<u8>::empty()
                &&& decoded(first_body(framed@)) == Some(message@)
            },
            Err(error) => error@ == ProtocolErrorView::MalformedPayload(
                if json_text(envelope(message@)).len() > MAX_BODY_LEN {
                    "message body exceeds the frame limit"@
                } else {
                    "message does not read back from its text"@
                },
            ),
        },
{
    let document = message_to_json(message);
    let body = match to_bytes(&document) {
        Ok(body) => body,
        Err(error) => {
            return Err(ProtocolError::MalformedPayload(error_text(&error)));
        },
    };
    if body.len() > MAX_BODY_LEN {
        return frame_body(body);
    }
    let read_back = match from_bytes(body.as_slice()) {
        Ok(read) => same_document(&read, &document),
        Err(_) => false,
    };
    if !read_back {
        return Err(
            ProtocolError::MalformedPayload(
                String::from_str("message does not read back from its text"),
            ),
        );
    }
    proof {
        lemma_round_trip(message@);
    }
    frame_body(body)
}

/// Decodes the body of a frame.
///
/// Succeeds exactly on the bodies that are JSON text of a document that
/// stands for a message, and returns that message. Any other body is
/// `MalformedPayload`; for a document that stands for no message the error
/// names its defect.
pub fn decode(body: &[u8]) -> (r: Result<Message, ProtocolError>)
    ensures
        match json_parse(body@) {
            Some(document) => match message_of(document) {
                Some(message) => r matches Ok(read) && read@ == message,
                None => r matches Err(error) && error@ == ProtocolErrorView::MalformedPayload(
                    envelope_defect(document),
                ),
            },
            None => r matches Err(error) && error@ is MalformedPayload,
        },
        r matches Ok(read) ==> decoded(body@) == Some(read@),
        r is Err ==> decoded(body@) is None,
{
    match from_bytes(body) {
        Ok(document) => message_from_json(&document),
        Err(error) => Err(ProtocolError::MalformedPayload(error_text(&error))),
    }
}

} // verus!
