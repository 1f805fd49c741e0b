//! The transport rules.
//!
//! A connection is served by two loops: the reader takes bytes from the
//! socket and hands whole messages to the inbound queue, the writer takes
//! messages from the outbound queue and puts their frames on the socket. The
//! socket and the queues belong to the caller. [`Transport`] holds what the
//! loops must remember, the bytes read so far and whether each loop still
//! runs, and decides after every event what its loop does next.

use crate::protocol::codec::{
    after_first, bytes_missing, declared_length, decode, decoded, encode, envelope, first_body,
    frame, frame_complete, HEADER_LEN, MAX_BODY_LEN,
};
use crate::protocol::error::{ProtocolError, ProtocolErrorView};
use crate::protocol::json::json_text;
use crate::protocol::message::Message;
use vstd::prelude::*;
use vstd::slice::slice_subrange;

verus! {

/// The number of messages each queue of a connection holds before a sender
/// has to wait.
pub const QUEUE_CAPACITY: usize = 100;

/// What happened since the reader was last told what to do.
#[derive(Debug)]
pub enum ReaderEvent {
    /// These bytes arrived from the socket.
    Received(Vec<u8>),
    /// The socket ended or failed.
    ReadFailed(String),
    /// The inbound queue took the message.
    Delivered,
    /// The inbound queue is closed: nobody receives any more.
    InboundClosed,
}

/// What the reader does next.
#[derive(Debug)]
pub enum ReaderAction {
    /// Wait for input. The number says how many more bytes are needed
    /// before anything can be handed out; it is never zero.
    Read(u64),
    /// Put this message on the inbound queue.
    Deliver(Message),
    /// Leave the loop, for the given reason if there is one.
    Stop(Option<ProtocolError>),
}

/// What happened since the writer was last told what to do.
#[derive(Debug)]
pub enum WriterEvent {
    /// The outbound queue handed over this message.
    Dequeued(Message),
    /// The outbound queue is closed and empty.
    OutboundClosed,
    /// The socket took the frame.
    Written,
    /// The socket failed.
    WriteFailed(String),
}

/// What the writer does next.
#[derive(Debug)]
pub enum WriterAction {
    /// Wait for the next message from the outbound queue.
    AwaitMessage,
    /// Put these bytes, one whole frame, on the socket.
    Write(Vec<u8>),
    /// Leave the loop, for the given reason if there is one.
    Stop(Option<ProtocolError>),
}

/// The state of the two loops of one connection.
#[derive(Debug)]
pub struct Transport {
    read_buffer: Vec<u8>,
    reader_running: bool,
    writer_running: bool,
}

/// The mathematical reading of a [`Transport`].
pub struct TransportView {
    /// The bytes that arrived and were not yet handed out as messages.
    pub buffer: Seq<u8>,
    /// Whether the reader loop still runs.
    pub reader_running: bool,
    /// Whether the writer loop still runs.
    pub writer_running: bool,
}

impl View for Transport {
    type V = TransportView;

    closed spec fn view(&self) -> TransportView {
        TransportView {
            buffer: self.read_buffer@,
            reader_running: self.reader_running,
            writer_running: self.writer_running,
        }
    }
}

impl TransportView {
    /// The state after the reader took note of an event: arriving bytes are
    /// appended, a failed socket or a closed queue stops the reader. A
    /// stopped reader takes note of nothing.
    pub open spec fn noted(self, event: ReaderEvent) -> TransportView {
        if !self.reader_running {
            self
        } else {
            match event {
                ReaderEvent::Received(data) => TransportView {
                    buffer: self.buffer + data@,
                    ..self
                },
                ReaderEvent::ReadFailed(_) => TransportView { reader_running: false, ..self },
                ReaderEvent::Delivered => self,
                ReaderEvent::InboundClosed => TransportView { reader_running: false, ..self },
            }
        }
    }

    /// The state after the reader handed out or rejected the frame at the
    /// start of the buffer.
    pub open spec fn consumed(self, still_running: bool) -> TransportView {
        TransportView {
            buffer: after_first(self.buffer),
            reader_running: still_running,
            ..self
        }
    }
}

impl Transport {
    /// The state of a fresh connection: nothing read, both loops running.
    pub fn new() -> (r: Transport)
        ensures
            r@.buffer == Seq::<u8>::empty(),
            r@.reader_running,
            r@.writer_running,
    {
        Transport { read_buffer: Vec::new(), reader_running: true, writer_running: true }
    }

    /// The number of bytes that arrived and were not yet handed out.
    pub fn buffered(&self) -> (r: usize)
        ensures
            r == self@.buffer.len(),
    {
        self.read_buffer.len()
    }

    /// Whether the reader loop still runs.
    pub fn reader_running(&self) -> (r: bool)
        ensures
            r == self@.reader_running,
    {
        self.reader_running
    }

    /// Whether the writer loop still runs.
    pub fn writer_running(&self) -> (r: bool)
        ensures
            r == self@.writer_running,
    {
        self.writer_running
    }

    /// Takes the next message out of the bytes read so far.
    ///
    /// While the buffer does not start with a whole frame the result is
    /// `None` and nothing changes: a frame is never handed out in part.
    /// Otherwise the frame leaves the buffer, and the result is what its body
    /// decodes to, a message or `MalformedPayload`.
    pub fn read_message(&mut self) -> (r: Option<Result<Message, ProtocolError>>)
        ensures
            final(self)@.reader_running == old(self)@.reader_running,
            final(self)@.writer_running == old(self)@.writer_running,
            !frame_complete(old(self)@.buffer) ==> (r is None && final(self)@.buffer == old(
                self)@.buffer),
            frame_complete(old(self)@.buffer) ==> final(self)@.buffer == after_first(
                old(self)@.buffer,
            ) && match decoded(first_body(old(self)@.buffer)) {
                Some(message) => r matches Some(Ok(read)) && read@ == message,
                None => r matches Some(Err(error)) && error@ is MalformedPayload,
            },
    {
        match self.whole_frame_end() {
            None => None,
            Some(end) => {
                let rest = self.read_buffer.split_off(end);
                let body = slice_subrange(self.read_buffer.as_slice(), HEADER_LEN, end);
                assert(body@ =~= first_body(old(self)@.buffer));
                let outcome = decode(body);
                self.read_buffer = rest;
                Some(outcome)
            },
        }
    }

    /// The frame that carries a message, ready for the socket: the length
    /// prefix and the JSON text of the envelope, nothing else. A message
    /// whose text is too long for a frame is `MalformedPayload`; every other
    /// message has its frame.
    pub fn write_message(message: &Message) -> (r: Result<Vec<u8>, ProtocolError>)
        ensures
            r is Ok <==> json_text(envelope(message@)).len() <= MAX_BODY_LEN,
            match r {
                Ok(framed) => framed@ == frame(json_text(envelope(message@))),
                Err(error) => error@ == ProtocolErrorView::MalformedPayload(
                    "message body exceeds the frame limit"@,
                ),
            },
    {
        encode(message)
    }

    /// How many more bytes the reader needs before the buffer starts with a
    /// whole frame; zero when it does.
    pub fn bytes_needed(&self) -> (r: u64)
        ensures
            frame_complete(self@.buffer) ==> r == 0,
            !frame_complete(self@.buffer) ==> r == bytes_missing(self@.buffer) && r > 0,
    {
        let len = self.read_buffer.len();
        if len < HEADER_LEN {
            (HEADER_LEN - len) as u64
        } else {
            let total = self.declared_total();
            if (len as u64) < total {
                total - len as u64
            } else {
                0
            }
        }
    }

    /// Header and declared body length together, for a buffer that holds a
    /// whole header.
    fn declared_total(&self) -> (r: u64)
        requires
            self.read_buffer@.len() >= HEADER_LEN,
        ensures
            r == HEADER_LEN + declared_length(self.read_buffer@),
    {
        let b0 = self.read_buffer[0] as u64;
        let b1 = self.read_buffer[1] as u64;
        let b2 = self.read_buffer[2] as u64;
        let b3 = self.read_buffer[3] as u64;
        4 + b0 * 0x100_0000 + b1 * 0x1_0000 + b2 * 0x100 + b3
    }

    /// Where the frame at the start of the buffer ends, if it is whole.
    fn whole_frame_end(&self) -> (r: Option<usize>)
        ensures
            match r {
                Some(end) => frame_complete(self.read_buffer@) && end == HEADER_LEN
                    + declared_length(self.read_buffer@) && end
                    <= self.read_buffer@.len(),
                None => !frame_complete(self.read_buffer@),
            },
    {
        let len = self.read_buffer.len();
        if len < HEADER_LEN {
            None
        } else {
            let total = self.declared_total();
            if (len as u64) < total {
                None
            } else {
                Some(total as usize)
            }
        }
    }

    /// What the reader does next, going by the bytes read so far.
    ///
    /// A stopped reader stops. While the buffer does not start with a whole
    /// frame, the reader waits for the missing bytes and the state stays as
    /// it is. A whole frame leaves the buffer: its message is delivered, or,
    /// where the body is malformed, the reader stops with that error.
    pub fn poll_reader(&mut self) -> (r: ReaderAction)
        ensures
            !old(self)@.reader_running ==> (r matches ReaderAction::Stop(None) && final(self)@
                == old(self)@),
            old(self)@.reader_running && !frame_complete(old(self)@.buffer) ==> r
                == ReaderAction::Read(bytes_missing(old(self)@.buffer) as u64) && r
                != ReaderAction::Read(0) && final(self)@ == old(self)@,
            old(self)@.reader_running && frame_complete(old(self)@.buffer) ==> match decoded(
                first_body(old(self)@.buffer),
            ) {
                Some(message) => r matches ReaderAction::Deliver(read) && read@ == message
                    && final(self)@ == old(self)@.consumed(true),
                None => r matches ReaderAction::Stop(Some(error)) && error@ is MalformedPayload
                    && final(self)@ == old(self)@.consumed(false),
            },
    {
        if !self.reader_running {
            return ReaderAction::Stop(None);
        }
        let needed = self.bytes_needed();
        if needed > 0 {
            return ReaderAction::Read(needed);
        }
        match self.read_message() {
            Some(Ok(message)) => ReaderAction::Deliver(message),
            Some(Err(error)) => {
                self.reader_running = false;
                ReaderAction::Stop(Some(error))
            },
            None => ReaderAction::Stop(None),
        }
    }

    /// Takes note of an event and says what the reader does next.
    ///
    /// Arriving bytes join the buffer. A failed socket stops the reader with
    /// a `Transport` error that carries the description; a closed inbound
    /// queue stops it without one. In every other case the reader goes on as
    /// [`Transport::poll_reader`] says for the state after the event.
    pub fn on_reader_event(&mut self, event: ReaderEvent) -> (r: ReaderAction)
        ensures
            !old(self)@.reader_running ==> (r matches ReaderAction::Stop(None) && final(self)@
                == old(self)@),
            old(self)@.reader_running ==> match event {
                ReaderEvent::ReadFailed(detail) => r matches ReaderAction::Stop(Some(error))
                    && error@ == ProtocolErrorView::Transport(detail@) && final(self)@ == old(self)@.noted(event),
                ReaderEvent::InboundClosed => r matches ReaderAction::Stop(None) && final(self)@
                    == old(self)@.noted(event),
                _ => {
                    let noted = old(self)@.noted(event);
                    if !frame_complete(noted.buffer) {
                        r == ReaderAction::Read(bytes_missing(noted.buffer) as u64)
                            && final(self)@ == noted
                    } else {
                        match decoded(first_body(noted.buffer)) {
                            Some(message) => r matches ReaderAction::Deliver(read) && read@
                                == message && final(self)@ == noted.consumed(true),
                            None => r matches ReaderAction::Stop(Some(error)) && error@
                                is MalformedPayload && final(self)@ == noted.consumed(false),
                        }
                    }
                },
            },
    {
        if !self.reader_running {
            return ReaderAction::Stop(None);
        }
        match event {
            ReaderEvent::Received(data) => {
                let mut data = data;
                self.read_buffer.append(&mut data);
                self.poll_reader()
            },
            ReaderEvent::ReadFailed(detail) => {
                self.reader_running = false;
                ReaderAction::Stop(Some(ProtocolError::Transport(detail)))
            },
            ReaderEvent::Delivered => self.poll_reader(),
            ReaderEvent::InboundClosed => {
                self.reader_running = false;
                ReaderAction::Stop(None)
            },
        }
    }

    /// What the writer does with the outcome of encoding a message: a frame
    /// goes to the socket, a failure stops the writer with that error.
    pub fn writer_after_encoding(&mut self, encoded: Result<Vec<u8>, ProtocolError>) -> (r:
        WriterAction)
        ensures
            final(self)@.buffer == old(self)@.buffer,
            final(self)@.reader_running == old(self)@.reader_running,
            !old(self)@.writer_running ==> (r matches WriterAction::Stop(None) && !final(
                self)@.writer_running),
            old(self)@.writer_running ==> match encoded {
                Ok(framed) => r == WriterAction::Write(framed) && final(self)@.writer_running,
                Err(error) => r == WriterAction::Stop(Some(error)) && !final(self)@.writer_running,
            },
    {
        if !self.writer_running {
            return WriterAction::Stop(None);
        }
        match encoded {
            Ok(framed) => WriterAction::Write(framed),
            Err(error) => {
                self.writer_running = false;
                WriterAction::Stop(Some(error))
            },
        }
    }

    /// Takes note of an event and says what the writer does next.
    ///
    /// A message from the queue is encoded and its frame written; only a
    /// message too long for a frame is not, and stops the writer with
    /// `MalformedPayload`. After a
    /// frame was written the writer waits for the next message. A closed
    /// queue stops the writer without an error, a failed socket with a
    /// `Transport` error that carries the description. The reader's side of
    /// the state is never touched.
    pub fn on_writer_event(&mut self, event: WriterEvent) -> (r: WriterAction)
        ensures
            final(self)@.buffer == old(self)@.buffer,
            final(self)@.reader_running == old(self)@.reader_running,
            !old(self)@.writer_running ==> (r matches WriterAction::Stop(None) && !final(
                self)@.writer_running),
            old(self)@.writer_running ==> match event {
                WriterEvent::Dequeued(message) => if json_text(envelope(message@)).len()
                    <= MAX_BODY_LEN {
                    r matches WriterAction::Write(framed) && framed@ == frame(
                        json_text(envelope(message@)),
                    ) && final(self)@.writer_running
                } else {
                    r matches WriterAction::Stop(Some(error)) && error@
                        == ProtocolErrorView::MalformedPayload(
                        "message body exceeds the frame limit"@,
                    ) && !final(self)@.writer_running
                },
                WriterEvent::OutboundClosed => r matches WriterAction::Stop(None) && !final(self)@.writer_running,
                WriterEvent::Written => r is AwaitMessage && final(self)@.writer_running,
                WriterEvent::WriteFailed(detail) => r matches WriterAction::Stop(Some(error))
                    && error@ == ProtocolErrorView::Transport(detail@) && !final(self)@.writer_running,
            },
    {
        if !self.writer_running {
            return WriterAction::Stop(None);
        }
        match event {
            WriterEvent::Dequeued(message) => {
                let encoded = Transport::write_message(&message);
                self.writer_after_encoding(encoded)
            },
            WriterEvent::OutboundClosed => {
                self.writer_running = false;
                WriterAction::Stop(None)
            },
            WriterEvent::Written => WriterAction::AwaitMessage,
            WriterEvent::WriteFailed(detail) => {
                self.writer_running = false;
                WriterAction::Stop(Some(ProtocolError::Transport(detail)))
            },
        }
    }
}

} // verus!
