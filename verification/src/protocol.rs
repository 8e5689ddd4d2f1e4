//! What clients and servers share: each message is sent on a line of
//! its own, ended by a line feed.
use vstd::prelude::*;

use crate::stream::{last_index_of, memrchr};

verus! {

/// The byte that ends each message on the stream.
pub const LINE_END: u8 = 10u8;

/// Why a coroutine could not go on.
#[derive(Debug, PartialEq, Eq)]
pub enum ProtocolError {
    /// A write made no progress: the stream accepts no more bytes.
    UnexpectedEof,
    /// The coroutine was resumed with an input it does not expect at
    /// this step.
    UnexpectedInput,
    /// A read reported more bytes than its buffer holds.
    InvalidOutput,
    /// The received line encodes no message.
    InvalidMessage,
    /// The request needs a first configured cycle and the timer has
    /// none.
    MissingCycle,
}

/// A message as it is sent: its encoding followed by a line end.
pub fn frame(bytes: Vec<u8>) -> (r: Vec<u8>)
    ensures
        r@ == bytes@.push(LINE_END),
{
    let mut bytes = bytes;
    bytes.push(LINE_END);
    bytes
}

/// What `append_line` leaves in the buffer: the chunk up to its last
/// line end, or the whole chunk when it holds none.
pub open spec fn append_line_spec(buffer: Seq<u8>, chunk: Seq<u8>) -> (Seq<u8>, bool) {
    match last_index_of(chunk, LINE_END) {
        Some(n) => (buffer + chunk.take(n), true),
        None => (buffer + chunk, false),
    }
}

/// Appends to `buffer` the bytes of `chunk` that come before its last
/// line end, and says whether there was one (the message is then
/// complete); appends the whole chunk otherwise.
pub fn append_line(buffer: &mut Vec<u8>, chunk: &[u8]) -> (ended: bool)
    ensures
        (final(buffer)@, ended) == append_line_spec(old(buffer)@, chunk@),
{
    match memrchr(LINE_END, chunk) {
        Some(n) => {
            proof {
                lemma_last_index_bound(chunk@, LINE_END);
            }
            let (line, _) = chunk.split_at(n);
            buffer.extend_from_slice(line);
            true
        },
        None => {
            buffer.extend_from_slice(chunk);
            false
        },
    }
}

/// A last index, when there is one, lies within the sequence and holds
/// the byte looked for.
pub proof fn lemma_last_index_bound(s: Seq<u8>, needle: u8)
    ensures
        last_index_of(s, needle) matches Some(i) ==> 0 <= i < s.len() && s[i] == needle,
    decreases s.len(),
{
    if s.len() > 0 && s.last() != needle {
        lemma_last_index_bound(s.drop_last(), needle);
    }
}

/// Whether a sequence of bytes holds no line end.
pub open spec fn has_no_line_end(bytes: Seq<u8>) -> bool {
    forall|i: int| 0 <= i < bytes.len() ==> bytes[i] != LINE_END
}

/// A sequence with no line end has no last line end.
proof fn lemma_no_line_end(bytes: Seq<u8>)
    requires
        has_no_line_end(bytes),
    ensures
        last_index_of(bytes, LINE_END) is None,
    decreases bytes.len(),
{
    if bytes.len() > 0 {
        lemma_no_line_end(bytes.drop_last());
    }
}

/// A framed message read in one chunk gives the message back, whatever
/// it holds, and ends the line.
pub proof fn lemma_frame_read_whole(received: Seq<u8>, message: Seq<u8>)
    ensures
        append_line_spec(received, message.push(LINE_END)) == (received + message, true),
{
    assert(message.push(LINE_END).take(message.len() as int) =~= message);
}

/// A framed message with no line end of its own, read in two chunks,
/// gives the message back: the first chunk ends no line and the second
/// one does.
pub proof fn lemma_frame_read_split(message: Seq<u8>, at: int)
    requires
        has_no_line_end(message),
        0 <= at <= message.len(),
    ensures
        append_line_spec(Seq::empty(), message.take(at)) == (message.take(at), false),
        append_line_spec(message.take(at), message.push(LINE_END).skip(at)) == (message, true),
{
    lemma_no_line_end(message.take(at));
    assert(Seq::<u8>::empty() + message.take(at) =~= message.take(at));
    let rest = message.push(LINE_END).skip(at);
    assert(rest =~= message.skip(at).push(LINE_END));
    lemma_frame_read_whole(message.take(at), message.skip(at));
    assert(message.take(at) + message.skip(at) =~= message);
}

/// What receiving the given chunks in order leaves: the bytes before
/// the last line end of the first chunk that holds one, appended to
/// `received`, and whether there was such a chunk. The chunks after it
/// are not read.
pub open spec fn append_chunks(received: Seq<u8>, chunks: Seq<Seq<u8>>) -> (Seq<u8>, bool)
    decreases chunks.len(),
{
    if chunks.len() == 0 {
        (received, false)
    } else {
        let (buffer, ended) = append_line_spec(received, chunks[0]);
        if ended {
            (buffer, true)
        } else {
            append_chunks(buffer, chunks.drop_first())
        }
    }
}

/// A sequence with no last line end has no line end.
proof fn lemma_no_last_line_end(bytes: Seq<u8>)
    requires
        last_index_of(bytes, LINE_END) is None,
    ensures
        has_no_line_end(bytes),
    decreases bytes.len(),
{
    if bytes.len() > 0 {
        lemma_no_last_line_end(bytes.drop_last());
        assert forall|i: int| 0 <= i < bytes.len() implies bytes[i] != LINE_END by {
            if i < bytes.len() - 1 {
                assert(bytes.drop_last()[i] == bytes[i]);
            }
        }
    }
}

/// A framed message with no line end of its own gives the message back,
/// however it is cut into chunks: receiving them gives what receiving
/// it in one chunk gives.
pub proof fn lemma_frame_read_chunks(received: Seq<u8>, message: Seq<u8>, chunks: Seq<Seq<u8>>)
    requires
        has_no_line_end(message),
        chunks.flatten() == message.push(LINE_END),
    ensures
        append_chunks(received, chunks) == (received + message, true),
        append_chunks(received, chunks) == append_chunks(received, seq![message.push(LINE_END)]),
    decreases chunks.len(),
{
    lemma_frame_read_whole(received, message);
    assert(seq![message.push(LINE_END)].drop_first() =~= Seq::<Seq<u8>>::empty());
    if chunks.len() == 0 {
        assert(chunks.flatten() =~= Seq::<u8>::empty());
        assert(message.push(LINE_END).len() > 0);
    } else {
        let c = chunks[0];
        let framed = message.push(LINE_END);
        assert(chunks.flatten() == c + chunks.drop_first().flatten());
        assert(framed.take(c.len() as int) =~= c) by {
            assert forall|i: int| 0 <= i < c.len() implies framed[i] == c[i] by {
                assert((c + chunks.drop_first().flatten())[i] == c[i]);
            }
        }
        lemma_last_index_bound(c, LINE_END);
        match last_index_of(c, LINE_END) {
            Some(i) => {
                assert(framed[i] == LINE_END);
                assert(i == message.len()) by {
                    if i < message.len() {
                        assert(framed[i] == message[i]);
                    }
                }
                assert(c.len() == message.len() + 1);
                assert(c =~= framed);
                assert(c.take(i) =~= message);
            },
            None => {
                lemma_no_last_line_end(c);
                assert(c.len() <= message.len()) by {
                    if c.len() > message.len() {
                        assert(c[message.len() as int] == framed[message.len() as int]);
                    }
                }
                let rest = message.skip(c.len() as int);
                assert(chunks.drop_first().flatten() =~= rest.push(LINE_END)) by {
                    assert(framed =~= c + chunks.drop_first().flatten());
                    assert(framed.skip(c.len() as int) =~= chunks.drop_first().flatten());
                    assert(framed.skip(c.len() as int) =~= rest.push(LINE_END));
                }
                assert(has_no_line_end(rest)) by {
                    assert forall|j: int| 0 <= j < rest.len() implies rest[j] != LINE_END by {
                        assert(rest[j] == message[j + c.len()]);
                    }
                }
                lemma_frame_read_chunks(received + c, rest, chunks.drop_first());
                assert(received + c + rest =~= received + message) by {
                    assert(c =~= message.take(c.len() as int));
                }
            },
        }
    }
}

} // verus!
