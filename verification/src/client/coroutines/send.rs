//! The client coroutine: sends one request and receives the response.
use vstd::prelude::*;

use io_stream::coroutines::read::ReadStream;
use io_stream::coroutines::write::WriteStream;

use crate::protocol::{append_line, append_line_spec, frame, ProtocolError, LINE_END};
use crate::request::Request;
use crate::response::Response;
use crate::stream::{
    new_read_stream, new_write_stream, read_stream_buffer, replace_read_buffer, resume_read,
    resume_write, write_stream_bytes, Io, ReadStep, WriteStep, READ_BUFFER_LEN,
};

verus! {

/// The step of the client coroutine.
#[derive(Debug)]
pub enum State {
    /// Waiting for the encoding of the request.
    EncodeRequest,
    /// Sending the request line.
    SendRequest(WriteStream),
    /// Receiving the response line.
    ReceiveResponse(ReadStream),
    /// Waiting for the decoding of the response line.
    DecodeResponse,
}

/// The step of the client coroutine, as the contracts see it.
pub enum SendPhase {
    Encoding,
    Sending,
    Receiving,
    Decoding,
}

/// The abstract value of the client coroutine: its step, the request,
/// the request bytes not yet written, those that the write coroutine
/// still holds to ask for, the buffer that its read coroutine holds for
/// the next read, and the response bytes received.
pub struct SendRequestView {
    pub phase: SendPhase,
    pub request: Request,
    pub unsent: Seq<u8>,
    pub queued: Seq<u8>,
    pub reading: Seq<u8>,
    pub response: Seq<u8>,
}

/// The order of the steps of the client coroutine, which never goes
/// back.
pub open spec fn send_phase_rank(phase: SendPhase) -> int {
    match phase {
        SendPhase::Encoding => 0,
        SendPhase::Sending => 1,
        SendPhase::Receiving => 2,
        SendPhase::Decoding => 3,
    }
}

/// What every client coroutine keeps: while it receives, its read
/// coroutine holds a buffer of at least one byte.
pub open spec fn send_well_formed(v: SendRequestView) -> bool {
    v.phase is Receiving ==> v.reading.len() > 0
}

/// Two views of the client coroutine that differ at most in the buffer
/// of the read coroutine.
pub open spec fn send_same_but_reading(a: SendRequestView, b: SendRequestView) -> bool {
    &&& a.phase == b.phase
    &&& a.request == b.request
    &&& a.unsent == b.unsent
    &&& a.queued == b.queued
    &&& a.response == b.response
}

/// The client coroutine: has the request encoded, sends it on a line,
/// receives the response line and has it decoded.
#[derive(Debug)]
pub struct SendRequest {
    state: State,
    request: Request,
    unsent: Vec<u8>,
    response: Vec<u8>,
}

/// What the client coroutine is resumed with.
#[derive(Debug)]
pub enum SendRequestInput {
    /// The result of the stream I/O it asked for.
    Io(Io),
    /// The encoding of the request it gave.
    Encoded(Vec<u8>),
    /// The response that the line it gave encodes, if any.
    Decoded(Option<Response>),
}

/// What resuming the client coroutine ends with.
#[derive(Debug)]
pub enum SendRequestResult {
    /// The response was received.
    Done(Response),
    /// The stream I/O to perform before resuming.
    Io(Io),
    /// The request to encode before resuming.
    Encode(Request),
    /// The response line to decode before resuming.
    Decode(Vec<u8>),
    /// The coroutine cannot go on.
    Failed(ProtocolError),
}

impl View for SendRequest {
    type V = SendRequestView;

    closed spec fn view(&self) -> SendRequestView {
        SendRequestView {
            phase: match self.state {
                State::EncodeRequest => SendPhase::Encoding,
                State::SendRequest(_) => SendPhase::Sending,
                State::ReceiveResponse(_) => SendPhase::Receiving,
                State::DecodeResponse => SendPhase::Decoding,
            },
            request: self.request,
            unsent: self.unsent@,
            queued: match self.state {
                State::SendRequest(write) => write_stream_bytes(write),
                _ => Seq::empty(),
            },
            reading: match self.state {
                State::ReceiveResponse(read) => read_stream_buffer(read),
                _ => Seq::empty(),
            },
            response: self.response@,
        }
    }
}

/// Whether the client coroutine asks to read into the given buffer.
pub open spec fn send_asks_read(r: SendRequestResult, buffer: Seq<u8>) -> bool {
    r matches SendRequestResult::Io(Io::Read(Err(b))) && b@ == buffer
}

/// Whether the client coroutine asks to write the given bytes.
pub open spec fn send_asks_write(r: SendRequestResult, bytes: Seq<u8>) -> bool {
    r matches SendRequestResult::Io(Io::Write(Err(b))) && b@ == bytes
}

impl SendRequest {
    /// A coroutine about to send the request.
    pub fn new(request: Request) -> (r: Self)
        ensures
            r@ == (SendRequestView {
                phase: SendPhase::Encoding,
                request: request,
                unsent: Seq::empty(),
                queued: Seq::empty(),
                reading: Seq::empty(),
                response: Seq::empty(),
            }),
    {
        SendRequest { state: State::EncodeRequest, request, unsent: Vec::new(), response: Vec::new() }
    }

    /// Makes the coroutine progress with the given input. It gives the
    /// request out to be encoded; writes the encoding with a line end,
    /// as many times as it takes; receives bytes until a line end and
    /// gives the line out to be decoded; then gives the decoded response
    /// back. An input it does not expect at its step leaves it as it
    /// is: a stream I/O is refused, and it asks again for an encoding or
    /// a decoding.
    pub fn resume(&mut self, input: Option<SendRequestInput>) -> (r: SendRequestResult)
        requires
            send_well_formed(old(self)@),
        ensures
            send_well_formed(final(self)@),
            send_phase_rank(final(self)@.phase) >= send_phase_rank(old(self)@.phase),
            final(self)@.request == old(self)@.request,
            old(self)@.phase is Encoding ==> match input {
                Some(SendRequestInput::Encoded(bytes)) => {
                    &&& final(self)@.phase is Sending
                    &&& final(self)@.unsent == bytes@.push(LINE_END)
                    &&& final(self)@.queued == Seq::<u8>::empty()
                    &&& final(self)@.response == old(self)@.response
                    &&& send_asks_write(r, bytes@.push(LINE_END))
                },
                _ => r == SendRequestResult::Encode(old(self)@.request) && final(self)@ == old(self)@,
            },
            old(self)@.phase is Sending ==> {
                &&& final(self)@.response == old(self)@.response
                &&& match input {
                    None => {
                        &&& send_asks_write(r, old(self)@.queued)
                        &&& final(self)@.phase is Sending
                        &&& final(self)@.queued == Seq::<u8>::empty()
                        &&& final(self)@.unsent == old(self)@.unsent
                    },
                    Some(SendRequestInput::Io(Io::Write(Ok(output)))) => if output.bytes_count
                        == 0 {
                        r == SendRequestResult::Failed(ProtocolError::UnexpectedEof) && final(self)@ == old(self)@
                    } else if output.bytes_count >= old(self)@.unsent.len() {
                        &&& final(self)@.phase is Receiving
                        &&& final(self)@.unsent == Seq::<u8>::empty()
                        &&& send_asks_read(r, Seq::new(READ_BUFFER_LEN as nat, |i: int| 0u8))
                        &&& final(self)@.reading.len() >= READ_BUFFER_LEN
                    } else {
                        &&& final(self)@.phase is Sending
                        &&& final(self)@.unsent == old(self)@.unsent.skip(
                            output.bytes_count as int,
                        )
                        &&& final(self)@.queued == Seq::<u8>::empty()
                        &&& send_asks_write(r, final(self)@.unsent)
                    },
                    Some(SendRequestInput::Io(Io::Write(Err(bytes)))) => {
                        &&& r matches SendRequestResult::Io(Io::Write(Err(b))) && b@ == bytes@
                        &&& final(self)@ == old(self)@
                    },
                    Some(_) => r == SendRequestResult::Failed(ProtocolError::UnexpectedInput)
                        && final(self)@ == old(self)@,
                }
            },
            old(self)@.phase is Receiving ==> match input {
                None => {
                    &&& send_asks_read(r, old(self)@.reading)
                    &&& final(self)@.reading.len() >= old(self)@.reading.len()
                    &&& send_same_but_reading(final(self)@, old(self)@)
                },
                Some(SendRequestInput::Io(Io::Read(Ok(output)))) => if output.bytes_count == 0 {
                    &&& send_asks_read(r, old(self)@.reading)
                    &&& final(self)@.reading.len() >= old(self)@.reading.len()
                    &&& send_same_but_reading(final(self)@, old(self)@)
                } else if output.bytes_count > output.buffer@.len() {
                    r == SendRequestResult::Failed(ProtocolError::InvalidOutput) && final(self)@
                        == old(self)@
                } else {
                    let (response, ended) = append_line_spec(
                        old(self)@.response,
                        output.buffer@.take(output.bytes_count as int),
                    );
                    &&& final(self)@.response == response
                    &&& final(self)@.unsent == old(self)@.unsent
                    &&& final(self)@.queued == old(self)@.queued
                    &&& if ended {
                        &&& final(self)@.phase is Decoding
                        &&& r matches SendRequestResult::Decode(line) && line@ == response
                    } else {
                        &&& final(self)@.phase is Receiving
                        &&& send_asks_read(r, Seq::new(output.buffer@.len(), |i: int| 0u8))
                        &&& final(self)@.reading.len() >= output.buffer@.len()
                    }
                },
                Some(SendRequestInput::Io(Io::Read(Err(buffer)))) => {
                    &&& r matches SendRequestResult::Io(Io::Read(Err(b))) && b@ == buffer@
                    &&& final(self)@ == old(self)@
                },
                Some(_) => r == SendRequestResult::Failed(ProtocolError::UnexpectedInput)
                    && final(self)@ == old(self)@,
            },
            old(self)@.phase is Decoding ==> {
                &&& final(self)@ == old(self)@
                &&& match input {
                    Some(SendRequestInput::Decoded(Some(response))) => r
                        == SendRequestResult::Done(response),
                    Some(SendRequestInput::Decoded(None)) => r == SendRequestResult::Failed(
                        ProtocolError::InvalidMessage,
                    ),
                    _ => r matches SendRequestResult::Decode(line) && line@ == old(self)@.response,
                }
            },
    {
        match &mut self.state {
            State::EncodeRequest => match input {
                Some(SendRequestInput::Encoded(bytes)) => {
                    let framed = frame(bytes);
                    self.unsent = framed.clone();
                    let mut write = new_write_stream(framed);
                    let step = resume_write(&mut write, None);
                    self.state = State::SendRequest(write);
                    match step {
                        WriteStep::Requested(bytes) => SendRequestResult::Io(Io::Write(Err(bytes))),
                        _ => SendRequestResult::Failed(ProtocolError::UnexpectedInput),
                    }
                },
                _ => SendRequestResult::Encode(self.request),
            },
            State::SendRequest(write) => match input {
                None => match resume_write(write, None) {
                    WriteStep::Requested(bytes) => SendRequestResult::Io(Io::Write(Err(bytes))),
                    _ => SendRequestResult::Failed(ProtocolError::UnexpectedInput),
                },
                Some(SendRequestInput::Io(Io::Write(result))) => match resume_write(
                    write,
                    Some(result),
                ) {
                    WriteStep::Written(output) => {
                        if output.bytes_count >= self.unsent.len() {
                            self.unsent = Vec::new();
                            let mut read = new_read_stream();
                            let step = resume_read(&mut read, None);
                            self.state = State::ReceiveResponse(read);
                            match step {
                                ReadStep::Requested(buffer) => SendRequestResult::Io(
                                    Io::Read(Err(buffer)),
                                ),
                                _ => SendRequestResult::Failed(ProtocolError::UnexpectedInput),
                            }
                        } else {
                            let mut rest = self.unsent.split_off(output.bytes_count);
                            std::mem::swap(&mut rest, &mut self.unsent);
                            *write = new_write_stream(self.unsent.clone());
                            match resume_write(write, None) {
                                WriteStep::Requested(bytes) => SendRequestResult::Io(
                                    Io::Write(Err(bytes)),
                                ),
                                _ => SendRequestResult::Failed(ProtocolError::UnexpectedInput),
                            }
                        }
                    },
                    WriteStep::Requested(bytes) => SendRequestResult::Io(Io::Write(Err(bytes))),
                    WriteStep::Eof => SendRequestResult::Failed(ProtocolError::UnexpectedEof),
                    _ => SendRequestResult::Failed(ProtocolError::UnexpectedInput),
                },
                Some(_) => SendRequestResult::Failed(ProtocolError::UnexpectedInput),
            },
            State::ReceiveResponse(read) => match input {
                None => match resume_read(read, None) {
                    ReadStep::Requested(buffer) => SendRequestResult::Io(Io::Read(Err(buffer))),
                    _ => SendRequestResult::Failed(ProtocolError::UnexpectedInput),
                },
                Some(SendRequestInput::Io(Io::Read(result))) => match resume_read(
                    read,
                    Some(result),
                ) {
                    ReadStep::Read(output) => {
                        if output.bytes_count > output.buffer.len() {
                            return SendRequestResult::Failed(ProtocolError::InvalidOutput);
                        }
                        let (bytes, _) = output.buffer.as_slice().split_at(output.bytes_count);
                        let ended = append_line(&mut self.response, bytes);
                        if ended {
                            self.state = State::DecodeResponse;
                            SendRequestResult::Decode(self.response.clone())
                        } else {
                            replace_read_buffer(read, output.buffer);
                            match resume_read(read, None) {
                                ReadStep::Requested(buffer) => SendRequestResult::Io(
                                    Io::Read(Err(buffer)),
                                ),
                                _ => SendRequestResult::Failed(ProtocolError::UnexpectedInput),
                            }
                        }
                    },
                    ReadStep::Requested(buffer) => SendRequestResult::Io(Io::Read(Err(buffer))),
                    ReadStep::Eof => match resume_read(read, None) {
                        ReadStep::Requested(buffer) => SendRequestResult::Io(Io::Read(Err(buffer))),
                        _ => SendRequestResult::Failed(ProtocolError::UnexpectedInput),
                    },
                    _ => SendRequestResult::Failed(ProtocolError::UnexpectedInput),
                },
                Some(_) => SendRequestResult::Failed(ProtocolError::UnexpectedInput),
            },
            State::DecodeResponse => match input {
                Some(SendRequestInput::Decoded(Some(response))) => SendRequestResult::Done(response),
                Some(SendRequestInput::Decoded(None)) => SendRequestResult::Failed(
                    ProtocolError::InvalidMessage,
                ),
                _ => SendRequestResult::Decode(self.response.clone()),
            },
        }
    }
}

} // verus!
