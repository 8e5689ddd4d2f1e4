//! The server coroutine: receives one request, applies it to the timer
//! and sends the response back.
use vstd::prelude::*;

use io_stream::coroutines::read::ReadStream;
use io_stream::coroutines::write::WriteStream;

use crate::protocol::{append_line, append_line_spec, frame, ProtocolError, LINE_END};
use crate::request::Request;
use crate::response::{Response, ResponseView};
use crate::stream::{
    new_read_stream, new_write_stream, read_stream_buffer, replace_read_buffer, resume_read,
    resume_write, write_stream_bytes, Io, ReadStep, WriteStep, READ_BUFFER_LEN,
};
use crate::timer::{
    elapsed_spec, event_option_view, events_view, pause_spec, resume_spec, set_spec, start_spec,
    stop_spec, Timer, TimerEvent, TimerEventView, TimerState, TimerView,
};

verus! {

/// The events of an optional event.
pub open spec fn option_events(event: Option<TimerEventView>) -> Seq<TimerEventView> {
    match event {
        Some(e) => seq![e],
        None => Seq::empty(),
    }
}

/// What handling a request gives, `secs` being the seconds read on the
/// clock since the timer's last start: the timer after the request,
/// the events to report and the response.
pub open spec fn handle_spec(t: TimerView, request: Request, secs: u64) -> (
    TimerView,
    Seq<TimerEventView>,
    ResponseView,
) {
    match request {
        Request::Start => (start_spec(t).0, start_spec(t).1, ResponseView::Done),
        Request::Get => (t, Seq::empty(), ResponseView::Timer(t)),
        Request::SetTo(duration) => (
            set_spec(t, duration as nat).0,
            seq![set_spec(t, duration as nat).1],
            ResponseView::Done,
        ),
        Request::Pause => (
            pause_spec(t, elapsed_spec(t, secs)).0,
            option_events(pause_spec(t, elapsed_spec(t, secs)).1),
            ResponseView::Done,
        ),
        Request::Resume => (
            resume_spec(t).0,
            option_events(resume_spec(t).1),
            ResponseView::Done,
        ),
        Request::Stop => (stop_spec(t).0, stop_spec(t).1, ResponseView::Done),
    }
}

/// The requests that can be handled on a timer: starting a stopped
/// timer or stopping a running one needs a first cycle.
pub open spec fn can_respond(t: TimerView, request: Request) -> bool {
    match request {
        Request::Start => t.state == TimerState::Stopped ==> t.config.cycles.len() > 0,
        Request::Stop => t.state == TimerState::Running ==> t.config.cycles.len() > 0,
        _ => true,
    }
}

/// Whether a request can be handled on the timer (see `can_respond`).
fn can_respond_now(timer: &Timer, request: Request) -> (r: bool)
    ensures
        r == can_respond(timer@, request),
{
    match request {
        Request::Start => timer.state != TimerState::Stopped || timer.config.cycles.len() > 0,
        Request::Stop => timer.state != TimerState::Running || timer.config.cycles.len() > 0,
        _ => true,
    }
}

/// Applies a request to the timer, appends the events that it reports
/// to `events` and gives the response.
pub fn respond(timer: &mut Timer, request: Request, events: &mut Vec<TimerEvent>) -> (r: Response)
    requires
        can_respond(old(timer)@, request),
    ensures
        exists|secs: u64|
            #[trigger] handle_spec(old(timer)@, request, secs) == (
                final(timer)@,
                events_view(final(events)@).skip(old(events)@.len() as int),
                r@,
            ),
        final(events)@.len() >= old(events)@.len(),
        events_view(final(events)@).take(old(events)@.len() as int) == events_view(old(events)@),
{
    let ghost t = timer@;
    let ghost old_events = events@;
    let ghost mut witness: u64 = 0;
    let r = match request {
        Request::Start => {
            let mut started = timer.start();
            events.append(&mut started);
            Response::Done
        },
        Request::Get => Response::Timer(timer.clone()),
        Request::SetTo(duration) => {
            let event = timer.set(duration);
            match event {
                Some(e) => events.push(e),
                None => {},
            }
            Response::Done
        },
        Request::Pause => {
            let event = timer.pause();
            match event {
                Some(e) => events.push(e),
                None => {},
            }
            proof {
                witness = choose|secs: u64|
                    (timer@, event_option_view(event)) == #[trigger] pause_spec(
                        t,
                        elapsed_spec(t, secs),
                    );
            }
            Response::Done
        },
        Request::Resume => {
            let event = timer.resume();
            match event {
                Some(e) => events.push(e),
                None => {},
            }
            Response::Done
        },
        Request::Stop => {
            let mut stopped = timer.stop();
            events.append(&mut stopped);
            Response::Done
        },
    };
    assert(events_view(events@).take(old_events.len() as int) =~= events_view(old_events));
    assert(events_view(events@).skip(old_events.len() as int) =~= handle_spec(t, request, witness).1);
    assert(handle_spec(t, request, witness) == (
        timer@,
        events_view(events@).skip(old_events.len() as int),
        r@,
    ));
    r
}

/// The step of the server coroutine.
#[derive(Debug)]
pub enum State {
    /// Receiving the request line.
    ReceiveRequest(ReadStream),
    /// Waiting for the decoding of the request line.
    DecodeRequest,
    /// Waiting for the encoding of the response.
    EncodeResponse(Response),
    /// Sending the response line.
    SendResponse(WriteStream),
}

/// The step of the server coroutine, as the contracts see it.
pub enum HandlePhase {
    Receiving,
    Decoding,
    Encoding(ResponseView),
    Sending,
}

/// The abstract value of the server coroutine: its step, the buffer
/// that its read coroutine holds for the next read, the request bytes
/// received, the events reported by the request, the response bytes
/// not yet written, and those that the write coroutine still holds to
/// ask for.
pub struct HandleRequestView {
    pub phase: HandlePhase,
    pub reading: Seq<u8>,
    pub request: Seq<u8>,
    pub events: Seq<TimerEventView>,
    pub unsent: Seq<u8>,
    pub queued: Seq<u8>,
}

/// The order of the steps of the server coroutine, which never goes
/// back.
pub open spec fn handle_phase_rank(phase: HandlePhase) -> int {
    match phase {
        HandlePhase::Receiving => 0,
        HandlePhase::Decoding => 1,
        HandlePhase::Encoding(_) => 2,
        HandlePhase::Sending => 3,
    }
}

/// What every server coroutine keeps: while it receives, its read
/// coroutine holds a buffer of at least one byte.
pub open spec fn handle_well_formed(v: HandleRequestView) -> bool {
    v.phase is Receiving ==> v.reading.len() > 0
}

/// Two views of the server coroutine that differ at most in the buffer
/// of the read coroutine.
pub open spec fn handle_same_but_reading(a: HandleRequestView, b: HandleRequestView) -> bool {
    &&& a.phase == b.phase
    &&& a.request == b.request
    &&& a.events == b.events
    &&& a.unsent == b.unsent
    &&& a.queued == b.queued
}

/// The server coroutine: receives one request line, has it decoded,
/// handles the request on the timer, has the response encoded and
/// sends the response line back.
#[derive(Debug)]
pub struct HandleRequest {
    state: State,
    request: Vec<u8>,
    events: Vec<TimerEvent>,
    unsent: Vec<u8>,
}

/// What the server coroutine is resumed with.
#[derive(Debug)]
pub enum HandleRequestInput {
    /// The result of the stream I/O it asked for.
    Io(Io),
    /// The request that the line it gave encodes, if any.
    Decoded(Option<Request>),
    /// The encoding of the response it gave.
    Encoded(Vec<u8>),
}

/// What resuming the server coroutine ends with.
#[derive(Debug)]
pub enum HandleRequestResult {
    /// The response was sent: the events reported by the request.
    Done(Vec<TimerEvent>),
    /// The stream I/O to perform before resuming.
    Io(Io),
    /// The request line to decode before resuming.
    Decode(Vec<u8>),
    /// The response to encode before resuming.
    Encode(Response),
    /// The coroutine cannot go on.
    Failed(ProtocolError),
}

impl View for HandleRequest {
    type V = HandleRequestView;

    closed spec fn view(&self) -> HandleRequestView {
        HandleRequestView {
            phase: match self.state {
                State::ReceiveRequest(_) => HandlePhase::Receiving,
                State::DecodeRequest => HandlePhase::Decoding,
                State::EncodeResponse(response) => HandlePhase::Encoding(response@),
                State::SendResponse(_) => HandlePhase::Sending,
            },
            reading: match self.state {
                State::ReceiveRequest(read) => read_stream_buffer(read),
                _ => Seq::empty(),
            },
            request: self.request@,
            events: events_view(self.events@),
            unsent: self.unsent@,
            queued: match self.state {
                State::SendResponse(write) => write_stream_bytes(write),
                _ => Seq::empty(),
            },
        }
    }
}

/// Whether the server coroutine asks to read into the given buffer.
pub open spec fn handle_asks_read(r: HandleRequestResult, buffer: Seq<u8>) -> bool {
    r matches HandleRequestResult::Io(Io::Read(Err(b))) && b@ == buffer
}

/// Whether the server coroutine asks to write the given bytes.
pub open spec fn handle_asks_write(r: HandleRequestResult, bytes: Seq<u8>) -> bool {
    r matches HandleRequestResult::Io(Io::Write(Err(b))) && b@ == bytes
}

impl HandleRequest {
    /// A coroutine about to receive a request.
    pub fn new() -> (r: Self)
        ensures
            r@ == (HandleRequestView {
                phase: HandlePhase::Receiving,
                reading: Seq::new(READ_BUFFER_LEN as nat, |i: int| 0u8),
                request: Seq::empty(),
                events: Seq::empty(),
                unsent: Seq::empty(),
                queued: Seq::empty(),
            }),
    {
        let r = HandleRequest {
            state: State::ReceiveRequest(new_read_stream()),
            request: Vec::new(),
            events: Vec::with_capacity(2),
            unsent: Vec::new(),
        };
        assert(events_view(r.events@) =~= Seq::<TimerEventView>::empty());
        r
    }

    /// Makes the coroutine progress with the given input. It receives
    /// bytes until a line end and gives the line out to be decoded;
    /// handles the decoded request on the timer and gives the response
    /// out to be encoded; writes the encoding with a line end, as many
    /// times as it takes; then gives back the events that the request
    /// reported. An input it does not expect at its step leaves it as it
    /// is: a stream I/O is refused, and it asks again for a decoding or
    /// an encoding.
    pub fn resume(&mut self, timer: &mut Timer, input: Option<HandleRequestInput>) -> (r:
        HandleRequestResult)
        requires
            handle_well_formed(old(self)@),
        ensures
            handle_well_formed(final(self)@),
            handle_phase_rank(final(self)@.phase) >= handle_phase_rank(old(self)@.phase),
            final(timer)@ != old(timer)@ ==> old(self)@.phase is Decoding && final(self)@.phase is Encoding,
            old(self)@.phase is Receiving ==> {
                &&& final(timer)@ == old(timer)@
                &&& match input {
                    None => {
                        &&& handle_asks_read(r, old(self)@.reading)
                        &&& final(self)@.reading.len() >= old(self)@.reading.len()
                        &&& handle_same_but_reading(final(self)@, old(self)@)
                    },
                    Some(HandleRequestInput::Io(Io::Read(Ok(output)))) => {
                        &&& final(self)@.events == old(self)@.events
                        &&& final(self)@.unsent == old(self)@.unsent
                        &&& final(self)@.queued == old(self)@.queued
                        &&& if output.bytes_count == 0 {
                            &&& handle_asks_read(r, old(self)@.reading)
                            &&& final(self)@.reading.len() >= old(self)@.reading.len()
                            &&& handle_same_but_reading(final(self)@, old(self)@)
                        } else if output.bytes_count > output.buffer@.len() {
                            r == HandleRequestResult::Failed(ProtocolError::InvalidOutput)
                                && final(self)@ == old(self)@
                        } else {
                            let (request, ended) = append_line_spec(
                                old(self)@.request,
                                output.buffer@.take(output.bytes_count as int),
                            );
                            &&& final(self)@.request == request
                            &&& if ended {
                                &&& final(self)@.phase is Decoding
                                &&& r matches HandleRequestResult::Decode(line) && line@ == request
                            } else {
                                &&& final(self)@.phase is Receiving
                                &&& handle_asks_read(
                                    r,
                                    Seq::new(output.buffer@.len(), |i: int| 0u8),
                                )
                                &&& final(self)@.reading.len() >= output.buffer@.len()
                            }
                        }
                    },
                    Some(HandleRequestInput::Io(Io::Read(Err(buffer)))) => {
                        &&& r matches HandleRequestResult::Io(Io::Read(Err(b))) && b@ == buffer@
                        &&& final(self)@ == old(self)@
                    },
                    Some(_) => r == HandleRequestResult::Failed(ProtocolError::UnexpectedInput)
                        && final(self)@ == old(self)@,
                }
            },
            old(self)@.phase is Decoding ==> match input {
                Some(HandleRequestInput::Decoded(Some(request))) => if can_respond(
                    old(timer)@,
                    request,
                ) {
                    &&& exists|secs: u64|
                        #[trigger] handle_spec(old(timer)@, request, secs) == (
                            final(timer)@,
                            final(self)@.events.skip(old(self)@.events.len() as int),
                            final(self)@.phase->Encoding_0,
                        )
                    &&& final(self)@.phase is Encoding
                    &&& r matches HandleRequestResult::Encode(response) && response@
                        == final(self)@.phase->Encoding_0
                    &&& final(self)@.events.len() >= old(self)@.events.len()
                    &&& final(self)@.events.take(old(self)@.events.len() as int)
                        == old(self)@.events
                    &&& final(self)@.request == old(self)@.request
                    &&& final(self)@.unsent == old(self)@.unsent
                    &&& final(self)@.queued == old(self)@.queued
                } else {
                    r == HandleRequestResult::Failed(ProtocolError::MissingCycle) && final(self)@
                        == old(self)@ && final(timer)@ == old(timer)@
                },
                Some(HandleRequestInput::Decoded(None)) => r == HandleRequestResult::Failed(
                    ProtocolError::InvalidMessage,
                ) && final(self)@ == old(self)@ && final(timer)@ == old(timer)@,
                _ => {
                    &&& r matches HandleRequestResult::Decode(line) && line@ == old(self)@.request
                    &&& final(self)@ == old(self)@
                    &&& final(timer)@ == old(timer)@
                },
            },
            old(self)@.phase is Encoding ==> {
                &&& final(timer)@ == old(timer)@
                &&& final(self)@.request == old(self)@.request
                &&& final(self)@.events == old(self)@.events
                &&& match input {
                    Some(HandleRequestInput::Encoded(bytes)) => {
                        &&& final(self)@.phase is Sending
                        &&& final(self)@.unsent == bytes@.push(LINE_END)
                        &&& final(self)@.queued == Seq::<u8>::empty()
                        &&& handle_asks_write(r, bytes@.push(LINE_END))
                    },
                    _ => {
                        &&& r matches HandleRequestResult::Encode(response) && response@
                            == old(self)@.phase->Encoding_0
                        &&& final(self)@ == old(self)@
                    },
                }
            },
            old(self)@.phase is Sending ==> {
                &&& final(timer)@ == old(timer)@
                &&& final(self)@.phase is Sending
                &&& final(self)@.request == old(self)@.request
                &&& match input {
                    None => {
                        &&& handle_asks_write(r, old(self)@.queued)
                        &&& final(self)@.queued == Seq::<u8>::empty()
                        &&& final(self)@.unsent == old(self)@.unsent
                        &&& final(self)@.events == old(self)@.events
                    },
                    Some(HandleRequestInput::Io(Io::Write(Ok(output)))) => if output.bytes_count
                        == 0 {
                        r == HandleRequestResult::Failed(ProtocolError::UnexpectedEof)
                            && final(self)@ == old(self)@
                    } else if output.bytes_count >= old(self)@.unsent.len() {
                        &&& r matches HandleRequestResult::Done(events) && events_view(events@)
                            == old(self)@.events
                        &&& final(self)@.events == Seq::<TimerEventView>::empty()
                        &&& final(self)@.unsent == Seq::<u8>::empty()
                        &&& final(self)@.queued == old(self)@.queued
                    } else {
                        &&& final(self)@.unsent == old(self)@.unsent.skip(
                            output.bytes_count as int,
                        )
                        &&& handle_asks_write(r, final(self)@.unsent)
                        &&& final(self)@.queued == Seq::<u8>::empty()
                        &&& final(self)@.events == old(self)@.events
                    },
                    Some(HandleRequestInput::Io(Io::Write(Err(bytes)))) => {
                        &&& r matches HandleRequestResult::Io(Io::Write(Err(b))) && b@ == bytes@
                        &&& final(self)@ == old(self)@
                    },
                    Some(_) => r == HandleRequestResult::Failed(ProtocolError::UnexpectedInput)
                        && final(self)@ == old(self)@,
                }
            },
    {
        match &mut self.state {
            State::ReceiveRequest(read) => match input {
                None => match resume_read(read, None) {
                    ReadStep::Requested(buffer) => HandleRequestResult::Io(Io::Read(Err(buffer))),
                    _ => HandleRequestResult::Failed(ProtocolError::UnexpectedInput),
                },
                Some(HandleRequestInput::Io(Io::Read(result))) => match resume_read(
                    read,
                    Some(result),
                ) {
                    ReadStep::Read(output) => {
                        if output.bytes_count > output.buffer.len() {
                            return HandleRequestResult::Failed(ProtocolError::InvalidOutput);
                        }
                        let (bytes, _) = output.buffer.as_slice().split_at(output.bytes_count);
                        let ended = append_line(&mut self.request, bytes);
                        if ended {
                            self.state = State::DecodeRequest;
                            HandleRequestResult::Decode(self.request.clone())
                        } else {
                            replace_read_buffer(read, output.buffer);
                            match resume_read(read, None) {
                                ReadStep::Requested(buffer) => HandleRequestResult::Io(
                                    Io::Read(Err(buffer)),
                                ),
                                _ => HandleRequestResult::Failed(ProtocolError::UnexpectedInput),
                            }
                        }
                    },
                    ReadStep::Requested(buffer) => HandleRequestResult::Io(Io::Read(Err(buffer))),
                    ReadStep::Eof => match resume_read(read, None) {
                        ReadStep::Requested(buffer) => HandleRequestResult::Io(
                            Io::Read(Err(buffer)),
                        ),
                        _ => HandleRequestResult::Failed(ProtocolError::UnexpectedInput),
                    },
                    _ => HandleRequestResult::Failed(ProtocolError::UnexpectedInput),
                },
                Some(_) => HandleRequestResult::Failed(ProtocolError::UnexpectedInput),
            },
            State::DecodeRequest => match input {
                Some(HandleRequestInput::Decoded(Some(request))) => {
                    if !can_respond_now(timer, request) {
                        return HandleRequestResult::Failed(ProtocolError::MissingCycle);
                    }
                    let ghost events_before = self.events@;
                    let response = respond(timer, request, &mut self.events);
                    let encode = response.clone();
                    self.state = State::EncodeResponse(response);
                    proof {
                        assert(events_view(self.events@).take(events_before.len() as int)
                            =~= events_view(events_before));
                    }
                    HandleRequestResult::Encode(encode)
                },
                Some(HandleRequestInput::Decoded(None)) => HandleRequestResult::Failed(
                    ProtocolError::InvalidMessage,
                ),
                _ => HandleRequestResult::Decode(self.request.clone()),
            },
            State::EncodeResponse(response) => match input {
                Some(HandleRequestInput::Encoded(bytes)) => {
                    let framed = frame(bytes);
                    self.unsent = framed.clone();
                    let mut write = new_write_stream(framed);
                    let step = resume_write(&mut write, None);
                    self.state = State::SendResponse(write);
                    match step {
                        WriteStep::Requested(bytes) => HandleRequestResult::Io(
                            Io::Write(Err(bytes)),
                        ),
                        _ => HandleRequestResult::Failed(ProtocolError::UnexpectedInput),
                    }
                },
                _ => HandleRequestResult::Encode(response.clone()),
            },
            State::SendResponse(write) => match input {
                None => match resume_write(write, None) {
                    WriteStep::Requested(bytes) => HandleRequestResult::Io(Io::Write(Err(bytes))),
                    _ => HandleRequestResult::Failed(ProtocolError::UnexpectedInput),
                },
                Some(HandleRequestInput::Io(Io::Write(result))) => match resume_write(
                    write,
                    Some(result),
                ) {
                    WriteStep::Written(output) => {
                        if output.bytes_count >= self.unsent.len() {
                            self.unsent = Vec::new();
                            let mut events: Vec<TimerEvent> = Vec::new();
                            std::mem::swap(&mut events, &mut self.events);
                            proof {
                                assert(events_view(self.events@) =~= Seq::<TimerEventView>::empty());
                            }
                            HandleRequestResult::Done(events)
                        } else {
                            let mut rest = self.unsent.split_off(output.bytes_count);
                            std::mem::swap(&mut rest, &mut self.unsent);
                            *write = new_write_stream(self.unsent.clone());
                            match resume_write(write, None) {
                                WriteStep::Requested(bytes) => HandleRequestResult::Io(
                                    Io::Write(Err(bytes)),
                                ),
                                _ => HandleRequestResult::Failed(ProtocolError::UnexpectedInput),
                            }
                        }
                    },
                    WriteStep::Requested(bytes) => HandleRequestResult::Io(Io::Write(Err(bytes))),
                    WriteStep::Eof => HandleRequestResult::Failed(ProtocolError::UnexpectedEof),
                    _ => HandleRequestResult::Failed(ProtocolError::UnexpectedInput),
                },
                Some(_) => HandleRequestResult::Failed(ProtocolError::UnexpectedInput),
            },
        }
    }
}

/// A `Get` request leaves the timer as it is and answers with it; any
/// other request is answered with `Done`.
pub proof fn lemma_responses(t: TimerView, request: Request, secs: u64)
    ensures
        request == Request::Get ==> handle_spec(t, request, secs) == (
            t,
            Seq::<TimerEventView>::empty(),
            ResponseView::Timer(t),
        ),
        request != Request::Get ==> handle_spec(t, request, secs).2 == ResponseView::Done,
{
}

/// Handling a request does to the timer what the timer operation of
/// the same name does, and reports the events that it reports.
pub proof fn lemma_handle_is_timer_operation(t: TimerView, secs: u64, duration: usize)
    ensures
        handle_spec(t, Request::Start, secs) == (start_spec(t).0, start_spec(t).1, ResponseView::Done),
        handle_spec(t, Request::Stop, secs) == (stop_spec(t).0, stop_spec(t).1, ResponseView::Done),
        handle_spec(t, Request::Resume, secs) == (
            resume_spec(t).0,
            option_events(resume_spec(t).1),
            ResponseView::Done,
        ),
        handle_spec(t, Request::Pause, secs) == (
            pause_spec(t, elapsed_spec(t, secs)).0,
            option_events(pause_spec(t, elapsed_spec(t, secs)).1),
            ResponseView::Done,
        ),
        handle_spec(t, Request::SetTo(duration), secs) == (
            set_spec(t, duration as nat).0,
            seq![set_spec(t, duration as nat).1],
            ResponseView::Done,
        ),
{
}

} // verus!
