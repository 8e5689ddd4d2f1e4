//! The stream coroutines of `io_stream` and the byte search of
//! `memchr` that the request and response coroutines build on.
use vstd::prelude::*;

use io_stream::coroutines::read::{ReadStream, ReadStreamError, ReadStreamResult};
use io_stream::coroutines::write::{WriteStream, WriteStreamError, WriteStreamResult};
use io_stream::io::{StreamIo, StreamOutput};

verus! {

#[verifier::external_type_specification]
#[verifier::external_body]
pub struct ExStreamIo(StreamIo);

#[verifier::external_type_specification]
#[verifier::external_body]
pub struct ExReadStream(ReadStream);

#[verifier::external_type_specification]
#[verifier::external_body]
pub struct ExWriteStream(WriteStream);

#[verifier::external_type_specification]
#[verifier::external_body]
pub struct ExReadStreamError(ReadStreamError);

#[verifier::external_type_specification]
#[verifier::external_body]
pub struct ExWriteStreamError(WriteStreamError);

/// The index of the last occurrence of `needle` in `haystack`.
pub open spec fn last_index_of(haystack: Seq<u8>, needle: u8) -> Option<int>
    decreases haystack.len(),
{
    if haystack.len() == 0 {
        None
    } else if haystack.last() == needle {
        Some(haystack.len() - 1)
    } else {
        last_index_of(haystack.drop_last(), needle)
    }
}

/// `memchr::memrchr`: the index of the last occurrence of `needle` in
/// `haystack`, as its documentation states it.
#[verifier::external_body]
pub fn memrchr(needle: u8, haystack: &[u8]) -> (r: Option<usize>)
    ensures
        match r {
            Some(i) => last_index_of(haystack@, needle) == Some(i as int),
            None => last_index_of(haystack@, needle) is None,
        },
{
    memchr::memrchr(needle, haystack)
}

/// What a stream I/O gave: the buffer and how many bytes of it were
/// read or written (`io_stream::io::StreamOutput`).
#[derive(Debug, PartialEq, Eq)]
pub struct IoOutput {
    pub buffer: Vec<u8>,
    pub bytes_count: usize,
}

/// A stream I/O (`io_stream::io::StreamIo`): a request to read into a
/// buffer or to write bytes (`Err`), or what the runtime did (`Ok`).
#[derive(Debug, PartialEq, Eq)]
pub enum Io {
    Read(Result<IoOutput, Vec<u8>>),
    Write(Result<IoOutput, Vec<u8>>),
}

/// A step of a read coroutine (`ReadStreamResult`), with the I/O it
/// asks for taken apart.
pub enum ReadStep {
    /// Bytes were read.
    Read(IoOutput),
    /// The coroutine asks to read into this buffer.
    Requested(Vec<u8>),
    /// The coroutine asks for another I/O.
    Unexpected(StreamIo),
    /// The stream reached its end.
    Eof,
    /// The coroutine failed.
    Failed(ReadStreamError),
}

/// A step of a write coroutine (`WriteStreamResult`), with the I/O it
/// asks for taken apart.
pub enum WriteStep {
    /// Bytes were written.
    Written(IoOutput),
    /// The coroutine asks to write these bytes.
    Requested(Vec<u8>),
    /// The coroutine asks for another I/O.
    Unexpected(StreamIo),
    /// The stream reached its end.
    Eof,
    /// The coroutine failed.
    Failed(WriteStreamError),
}

/// The buffer that a read coroutine holds, to be handed out for the
/// next read.
pub uninterp spec fn read_stream_buffer(stream: ReadStream) -> Seq<u8>;

/// The number of bytes of the buffer of a new read coroutine
/// (`ReadStream::DEFAULT_CAPACITY`).
pub const READ_BUFFER_LEN: usize = 8192usize;

/// `ReadStream::new`: a read coroutine whose buffer holds
/// `ReadStream::DEFAULT_CAPACITY` zeros, as its source shows.
#[verifier::external_body]
pub fn new_read_stream() -> (r: ReadStream)
    ensures
        read_stream_buffer(r) == Seq::new(READ_BUFFER_LEN as nat, |i: int| 0u8),
{
    ReadStream::new()
}

/// `ReadStream::resume`, given the result of a read (or none). As its
/// source shows: with no result it asks to read into the buffer it
/// holds, and then holds a buffer of zeros as long as the capacity of
/// the first (its exact length is an allocator's capacity, not
/// stated); a read request handed back is asked again; a read of no
/// byte is the end of the stream; any other read is given back as it
/// is. Only the first case changes the buffer it holds.
#[verifier::external_body]
pub fn resume_read(read: &mut ReadStream, arg: Option<Result<IoOutput, Vec<u8>>>) -> (r: ReadStep)
    ensures
        arg is Some ==> read_stream_buffer(*final(read)) == read_stream_buffer(*old(read)),
        match arg {
            None => {
                &&& r matches ReadStep::Requested(b) && b@ == read_stream_buffer(*old(read))
                &&& read_stream_buffer(*final(read)).len() >= read_stream_buffer(*old(read)).len()
                &&& forall|i: int|
                    0 <= i < read_stream_buffer(*final(read)).len() ==> #[trigger] read_stream_buffer(
                        *final(read),
                    )[i] == 0u8
            },
            Some(Err(buffer)) => r matches ReadStep::Requested(b) && b@ == buffer@,
            Some(Ok(output)) => if output.bytes_count == 0 {
                r is Eof
            } else {
                r matches ReadStep::Read(o) && o.buffer@ == output.buffer@ && o.bytes_count
                    == output.bytes_count
            },
        },
{
    let arg = arg.map(|r| StreamIo::Read(r.map(|o| StreamOutput { buffer: o.buffer, bytes_count: o.bytes_count })));
    match read.resume(arg) {
        ReadStreamResult::Ok(o) => ReadStep::Read(IoOutput { buffer: o.buffer, bytes_count: o.bytes_count }),
        ReadStreamResult::Io(StreamIo::Read(Err(b))) => ReadStep::Requested(b),
        ReadStreamResult::Io(io) => ReadStep::Unexpected(io),
        ReadStreamResult::Eof => ReadStep::Eof,
        ReadStreamResult::Err(err) => ReadStep::Failed(err),
    }
}

/// `ReadStream::replace`: gives the coroutine a buffer for the next
/// read, filled with zeros, as its source shows.
#[verifier::external_body]
pub fn replace_read_buffer(read: &mut ReadStream, buffer: Vec<u8>)
    ensures
        read_stream_buffer(*final(read)) == Seq::new(buffer@.len(), |i: int| 0u8),
{
    read.replace(buffer)
}

/// The bytes that a write coroutine holds, to be asked for writing.
pub uninterp spec fn write_stream_bytes(stream: WriteStream) -> Seq<u8>;

/// `WriteStream::new`: a write coroutine holding the given bytes.
#[verifier::external_body]
pub fn new_write_stream(bytes: Vec<u8>) -> (r: WriteStream)
    ensures
        write_stream_bytes(r) == bytes@,
{
    WriteStream::new(bytes)
}

/// `WriteStream::resume`, given the result of a write (or none). As its
/// source shows: with no result it asks to write all the bytes it holds
/// and holds none after; a write request handed back is asked again; a
/// write of no byte is the end of the stream; any other write is given
/// back as it is.
#[verifier::external_body]
pub fn resume_write(write: &mut WriteStream, arg: Option<Result<IoOutput, Vec<u8>>>) -> (r:
    WriteStep)
    ensures
        match arg {
            None => {
                &&& r matches WriteStep::Requested(b) && b@ == write_stream_bytes(*old(write))
                &&& write_stream_bytes(*final(write)) == Seq::<u8>::empty()
            },
            Some(Err(bytes)) => {
                &&& r matches WriteStep::Requested(b) && b@ == bytes@
                &&& write_stream_bytes(*final(write)) == write_stream_bytes(*old(write))
            },
            Some(Ok(output)) => {
                &&& if output.bytes_count == 0 {
                    r is Eof
                } else {
                    r matches WriteStep::Written(o) && o.buffer@ == output.buffer@
                        && o.bytes_count == output.bytes_count
                }
                &&& write_stream_bytes(*final(write)) == write_stream_bytes(*old(write))
            },
        },
{
    let arg = arg.map(|r| StreamIo::Write(r.map(|o| StreamOutput { buffer: o.buffer, bytes_count: o.bytes_count })));
    match write.resume(arg) {
        WriteStreamResult::Ok(o) => WriteStep::Written(IoOutput { buffer: o.buffer, bytes_count: o.bytes_count }),
        WriteStreamResult::Io(StreamIo::Write(Err(b))) => WriteStep::Requested(b),
        WriteStreamResult::Io(io) => WriteStep::Unexpected(io),
        WriteStreamResult::Eof => WriteStep::Eof,
        WriteStreamResult::Err(err) => WriteStep::Failed(err),
    }
}

} // verus!
