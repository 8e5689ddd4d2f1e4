use io_timer::client::coroutines::send::{SendRequest, SendRequestInput, SendRequestResult};
use io_timer::protocol::{append_line, frame, ProtocolError, LINE_END};
use io_timer::server::coroutines::handle::{
    respond, HandleRequest, HandleRequestInput, HandleRequestResult,
};
use io_timer::timer::{TimerConfig, TimerCycle, TimerCycles, TimerEvent, TimerLoop, TimerState};
use io_timer::{Io, IoOutput, Request, Response, Timer};

fn timer() -> Timer {
    Timer::new(TimerConfig {
        cycles: TimerCycles::from(vec![TimerCycle::new("Work", 2), TimerCycle::new("Rest", 3)]),
        cycles_count: TimerLoop::Infinite,
    })
}

fn read(bytes: &[u8]) -> Option<HandleRequestInput> {
    let mut buffer = bytes.to_vec();
    buffer.extend_from_slice(&[0; 8]);
    Some(HandleRequestInput::Io(Io::Read(Ok(IoOutput { buffer, bytes_count: bytes.len() }))))
}

fn written(bytes: &[u8], bytes_count: usize) -> Option<HandleRequestInput> {
    Some(HandleRequestInput::Io(Io::Write(Ok(IoOutput { buffer: bytes.to_vec(), bytes_count }))))
}

fn client_read(bytes: &[u8]) -> Option<SendRequestInput> {
    let mut buffer = bytes.to_vec();
    buffer.extend_from_slice(&[0; 8]);
    Some(SendRequestInput::Io(Io::Read(Ok(IoOutput { buffer, bytes_count: bytes.len() }))))
}

fn client_written(bytes: &[u8], bytes_count: usize) -> Option<SendRequestInput> {
    Some(SendRequestInput::Io(Io::Write(Ok(IoOutput { buffer: bytes.to_vec(), bytes_count }))))
}

#[test]
fn frame_ends_with_line_end() {
    assert_eq!(frame(b"abc".to_vec()), b"abc\n".to_vec());
    assert_eq!(frame(Vec::new()), vec![LINE_END]);
}

#[test]
fn append_line_stops_at_last_line_end() {
    let mut buffer = b"ab".to_vec();
    assert!(append_line(&mut buffer, b"c\nd\nef"));
    assert_eq!(buffer, b"abc\nd".to_vec());

    let mut buffer = b"ab".to_vec();
    assert!(!append_line(&mut buffer, b"cd"));
    assert_eq!(buffer, b"abcd".to_vec());
}

#[test]
fn framed_message_read_in_two_chunks() {
    let message = frame(b"hello".to_vec());
    let mut buffer = Vec::new();
    assert!(!append_line(&mut buffer, &message[..2]));
    assert!(append_line(&mut buffer, &message[2..]));
    assert_eq!(buffer, b"hello".to_vec());
}

#[test]
fn respond_applies_requests() {
    let mut timer = timer();
    let mut events = Vec::new();
    assert_eq!(respond(&mut timer, Request::Start, &mut events), Response::Done);
    assert_eq!(timer.state, TimerState::Running);
    assert_eq!(respond(&mut timer, Request::SetTo(9), &mut events), Response::Done);
    assert_eq!(timer.cycle, TimerCycle::new("Work", 9));
    assert_eq!(respond(&mut timer, Request::Pause, &mut events), Response::Done);
    assert_eq!(timer.state, TimerState::Paused);
    match respond(&mut timer, Request::Get, &mut events) {
        Response::Timer(t) => {
            assert_eq!(t.state, TimerState::Paused);
            assert_eq!(t.cycle, TimerCycle::new("Work", 9));
        }
        other => panic!("unexpected response {other:?}"),
    }
    assert_eq!(respond(&mut timer, Request::Resume, &mut events), Response::Done);
    assert_eq!(respond(&mut timer, Request::Stop, &mut events), Response::Done);
    assert_eq!(timer.state, TimerState::Stopped);
    assert_eq!(timer.cycle, TimerCycle::new("Work", 2));
    assert_eq!(
        events,
        vec![
            TimerEvent::Started,
            TimerEvent::Began(TimerCycle::new("Work", 2)),
            TimerEvent::SetTo(TimerCycle::new("Work", 9)),
            TimerEvent::Paused(TimerCycle::new("Work", 9)),
            TimerEvent::Resumed(TimerCycle::new("Work", 9)),
            TimerEvent::Ended(TimerCycle::new("Work", 9)),
            TimerEvent::Stopped,
        ]
    );
}

#[test]
fn handle_request_round() {
    let mut timer = timer();
    let mut handler = HandleRequest::new();

    // asks to read
    assert!(matches!(handler.resume(&mut timer, None), HandleRequestResult::Io(Io::Read(Err(_)))));

    // a first chunk with no line end: asks to read again, timer untouched
    assert!(matches!(
        handler.resume(&mut timer, read(b"sta")),
        HandleRequestResult::Io(Io::Read(Err(_)))
    ));
    assert_eq!(timer.state, TimerState::Stopped);

    // the rest of the line: the line is given out to be decoded
    match handler.resume(&mut timer, read(b"rt\nnext")) {
        HandleRequestResult::Decode(line) => assert_eq!(line, b"start".to_vec()),
        other => panic!("unexpected {other:?}"),
    }
    // asked again while nothing is decoded
    match handler.resume(&mut timer, None) {
        HandleRequestResult::Decode(line) => assert_eq!(line, b"start".to_vec()),
        other => panic!("unexpected {other:?}"),
    }
    assert_eq!(timer.state, TimerState::Stopped);

    // the decoded request is handled, the response given out
    match handler.resume(&mut timer, Some(HandleRequestInput::Decoded(Some(Request::Start)))) {
        HandleRequestResult::Encode(response) => assert_eq!(response, Response::Done),
        other => panic!("unexpected {other:?}"),
    }
    assert_eq!(timer.state, TimerState::Running);
    assert_eq!(timer.cycle, TimerCycle::new("Work", 2));

    // the encoding is written with a line end
    match handler.resume(&mut timer, Some(HandleRequestInput::Encoded(b"ok".to_vec()))) {
        HandleRequestResult::Io(Io::Write(Err(bytes))) => assert_eq!(bytes, b"ok\n".to_vec()),
        other => panic!("unexpected {other:?}"),
    }
    // a partial write: the rest is written again
    match handler.resume(&mut timer, written(b"ok\n", 1)) {
        HandleRequestResult::Io(Io::Write(Err(bytes))) => assert_eq!(bytes, b"k\n".to_vec()),
        other => panic!("unexpected {other:?}"),
    }
    match handler.resume(&mut timer, written(b"k\n", 2)) {
        HandleRequestResult::Done(events) => assert_eq!(
            events,
            vec![TimerEvent::Started, TimerEvent::Began(TimerCycle::new("Work", 2))]
        ),
        other => panic!("unexpected {other:?}"),
    }
}

#[test]
fn handle_get_answers_with_timer() {
    let mut timer = Timer::default();
    let mut handler = HandleRequest::new();
    let _ = handler.resume(&mut timer, None);
    let _ = handler.resume(&mut timer, read(b"get\n"));
    match handler.resume(&mut timer, Some(HandleRequestInput::Decoded(Some(Request::Get)))) {
        HandleRequestResult::Encode(Response::Timer(t)) => {
            assert_eq!(t.state, TimerState::Stopped);
            assert_eq!(t.cycle, TimerCycle::default());
        }
        other => panic!("unexpected {other:?}"),
    }
    // asked again while nothing is encoded
    assert!(matches!(
        handler.resume(&mut timer, None),
        HandleRequestResult::Encode(Response::Timer(_))
    ));
}

#[test]
fn handle_request_rejects_undecodable_line() {
    let mut timer = timer();
    let mut handler = HandleRequest::new();
    let _ = handler.resume(&mut timer, None);
    let _ = handler.resume(&mut timer, read(b"jump\n"));
    match handler.resume(&mut timer, Some(HandleRequestInput::Decoded(None))) {
        HandleRequestResult::Failed(ProtocolError::InvalidMessage) => {}
        other => panic!("unexpected {other:?}"),
    }
    assert_eq!(timer.state, TimerState::Stopped);
}

#[test]
fn handle_request_missing_cycle() {
    let mut timer = Timer::default();
    let mut handler = HandleRequest::new();
    let _ = handler.resume(&mut timer, None);
    let _ = handler.resume(&mut timer, read(b"start\n"));
    match handler.resume(&mut timer, Some(HandleRequestInput::Decoded(Some(Request::Start)))) {
        HandleRequestResult::Failed(ProtocolError::MissingCycle) => {}
        other => panic!("unexpected {other:?}"),
    }
    assert_eq!(timer.state, TimerState::Stopped);
}

#[test]
fn handle_request_end_of_stream_reads_again() {
    let mut timer = timer();
    let mut handler = HandleRequest::new();
    let _ = handler.resume(&mut timer, None);
    match handler.resume(&mut timer, read(b"")) {
        HandleRequestResult::Io(Io::Read(Err(buffer))) => assert!(!buffer.is_empty()),
        other => panic!("unexpected {other:?}"),
    }
    assert_eq!(timer.state, TimerState::Stopped);
    match handler.resume(&mut timer, read(b"stop\n")) {
        HandleRequestResult::Decode(line) => assert_eq!(line, b"stop".to_vec()),
        other => panic!("unexpected {other:?}"),
    }
}

#[test]
fn handle_request_reads_into_default_buffer() {
    let mut timer = timer();
    let mut handler = HandleRequest::new();
    match handler.resume(&mut timer, None) {
        HandleRequestResult::Io(Io::Read(Err(buffer))) => {
            assert_eq!(buffer.len(), 8 * 1024);
            assert!(buffer.iter().all(|b| *b == 0));
        }
        other => panic!("unexpected {other:?}"),
    }
    // after a chunk with no line end, the buffer given back is asked
    // again, zeroed
    let io = Io::Read(Ok(IoOutput { buffer: vec![b'g', b'e', 7, 7], bytes_count: 2 }));
    match handler.resume(&mut timer, Some(HandleRequestInput::Io(io))) {
        HandleRequestResult::Io(Io::Read(Err(buffer))) => assert_eq!(buffer, vec![0, 0, 0, 0]),
        other => panic!("unexpected {other:?}"),
    }
}

#[test]
fn handle_request_line_in_many_chunks() {
    let mut timer = timer();
    let mut handler = HandleRequest::new();
    let _ = handler.resume(&mut timer, None);
    for chunk in [&b"s"[..], b"t", b"", b"op"] {
        assert!(matches!(
            handler.resume(&mut timer, read(chunk)),
            HandleRequestResult::Io(Io::Read(Err(_)))
        ));
    }
    match handler.resume(&mut timer, read(b"\n")) {
        HandleRequestResult::Decode(line) => assert_eq!(line, b"stop".to_vec()),
        other => panic!("unexpected {other:?}"),
    }
}

#[test]
fn handle_pause_reports_event() {
    let mut timer = timer();
    timer.start();
    let mut handler = HandleRequest::new();
    let _ = handler.resume(&mut timer, None);
    let _ = handler.resume(&mut timer, read(b"pause\n"));
    let _ = handler.resume(&mut timer, Some(HandleRequestInput::Decoded(Some(Request::Pause))));
    assert_eq!(timer.state, TimerState::Paused);
    let _ = handler.resume(&mut timer, Some(HandleRequestInput::Encoded(b"ok".to_vec())));
    match handler.resume(&mut timer, written(b"ok\n", 3)) {
        HandleRequestResult::Done(events) => {
            assert_eq!(events, vec![TimerEvent::Paused(TimerCycle::new("Work", 2))])
        }
        other => panic!("unexpected {other:?}"),
    }
}

#[test]
fn handle_request_invalid_output() {
    let mut timer = timer();
    let mut handler = HandleRequest::new();
    let _ = handler.resume(&mut timer, None);
    let io = Io::Read(Ok(IoOutput { buffer: vec![1, 2], bytes_count: 5 }));
    match handler.resume(&mut timer, Some(HandleRequestInput::Io(io))) {
        HandleRequestResult::Failed(ProtocolError::InvalidOutput) => {}
        other => panic!("unexpected {other:?}"),
    }
}

#[test]
fn handle_request_wrong_io() {
    let mut timer = timer();
    let mut handler = HandleRequest::new();
    match handler.resume(&mut timer, written(b"x", 1)) {
        HandleRequestResult::Failed(ProtocolError::UnexpectedInput) => {}
        other => panic!("unexpected {other:?}"),
    }
}

#[test]
fn send_request_round() {
    let mut send = SendRequest::new(Request::SetTo(21));

    match send.resume(None) {
        SendRequestResult::Encode(request) => assert_eq!(request, Request::SetTo(21)),
        other => panic!("unexpected {other:?}"),
    }
    let bytes = match send.resume(Some(SendRequestInput::Encoded(b"set 21".to_vec()))) {
        SendRequestResult::Io(Io::Write(Err(bytes))) => bytes,
        other => panic!("unexpected {other:?}"),
    };
    assert_eq!(bytes, b"set 21\n".to_vec());

    // written: asks to read the response
    assert!(matches!(
        send.resume(client_written(&bytes, bytes.len())),
        SendRequestResult::Io(Io::Read(Err(_)))
    ));
    assert!(matches!(send.resume(client_read(b"o")), SendRequestResult::Io(Io::Read(Err(_)))));
    // an empty read: asks to read again
    assert!(matches!(send.resume(client_read(b"")), SendRequestResult::Io(Io::Read(Err(_)))));
    match send.resume(client_read(b"k\n")) {
        SendRequestResult::Decode(line) => assert_eq!(line, b"ok".to_vec()),
        other => panic!("unexpected {other:?}"),
    }
    match send.resume(Some(SendRequestInput::Decoded(Some(Response::Done)))) {
        SendRequestResult::Done(response) => assert_eq!(response, Response::Done),
        other => panic!("unexpected {other:?}"),
    }
}

#[test]
fn send_request_partial_write() {
    let mut send = SendRequest::new(Request::Stop);
    let _ = send.resume(None);
    let _ = send.resume(Some(SendRequestInput::Encoded(b"stop".to_vec())));
    match send.resume(client_written(b"stop\n", 3)) {
        SendRequestResult::Io(Io::Write(Err(bytes))) => assert_eq!(bytes, b"p\n".to_vec()),
        other => panic!("unexpected {other:?}"),
    }
}

#[test]
fn send_request_undecodable_response() {
    let mut send = SendRequest::new(Request::Get);
    let _ = send.resume(None);
    let _ = send.resume(Some(SendRequestInput::Encoded(b"get".to_vec())));
    let _ = send.resume(client_written(b"get\n", 4));
    let _ = send.resume(client_read(b"garbage\n"));
    match send.resume(Some(SendRequestInput::Decoded(None))) {
        SendRequestResult::Failed(ProtocolError::InvalidMessage) => {}
        other => panic!("unexpected {other:?}"),
    }
}

#[test]
fn send_request_write_eof() {
    let mut send = SendRequest::new(Request::Get);
    let _ = send.resume(None);
    let _ = send.resume(Some(SendRequestInput::Encoded(b"get".to_vec())));
    match send.resume(client_written(b"", 0)) {
        SendRequestResult::Failed(ProtocolError::UnexpectedEof) => {}
        other => panic!("unexpected {other:?}"),
    }
}
