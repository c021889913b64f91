//! The wire framing of a connection.
//!
//! A frame is the length of a message body as an unsigned LEB128 integer,
//! followed by the body. A `Connection` builds the frames to write and
//! assembles the frames read. It never touches the stream: the caller reads
//! the bytes that `status` asks for and writes the bytes that `send_response`
//! hands back.

use crate::buffer::{as_slice, contents};
use crate::error::Error;
use crate::varint::{
    decoding, encoding, lemma_decoding_of_encoding, lemma_decoding_of_truncation,
    lemma_encoding_len_u64, lemma_terminated_bounds, lemma_terminated_exhausted,
    lemma_terminated_extends, read_varint, write_varint, MAX_LEN,
};
use bytes::BytesMut;
use vstd::prelude::*;
use vstd::slice::slice_subrange;

verus! {

/// The capacity that both buffers of a new connection start with.
pub const BUFFER_CAPACITY: usize = 128;

/// The most bytes that the body of a frame may have: what a buffer can hold
/// beside the longest length prefix.
pub open spec fn max_body() -> nat {
    (isize::MAX - MAX_LEN) as nat
}

/// The frame that carries `body`.
pub open spec fn frame(body: Seq<u8>) -> Seq<u8> {
    encoding(body.len()) + body
}

/// What a run of bytes read from the stream amounts to.
#[derive(Debug, Clone, Copy, PartialEq, Eq)]
pub enum FrameStatus {
    /// The length prefix is not complete: one more byte is wanted.
    NeedLength,
    /// The length prefix is complete and this many bytes of the body are
    /// missing.
    NeedBody(usize),
    /// A whole frame is there. Its body starts at `start` and has `len` bytes.
    Complete { start: usize, len: usize },
    /// Ten bytes went by without an end of the length prefix.
    BadLength,
    /// The length prefix announces a body that no buffer can hold.
    TooLong,
}

/// What the bytes `s`, read from the start of a frame, amount to.
pub open spec fn status(s: Seq<u8>) -> FrameStatus {
    match decoding(s) {
        None => if s.len() < MAX_LEN {
            FrameStatus::NeedLength
        } else {
            FrameStatus::BadLength
        },
        Some((n, k)) => if n > max_body() {
            FrameStatus::TooLong
        } else if s.len() - k >= n {
            FrameStatus::Complete { start: k, len: n as usize }
        } else {
            FrameStatus::NeedBody((n - (s.len() - k)) as usize)
        },
    }
}

/// The framing codec of one connection, with a buffer for the frame to write
/// and one for the frame being read. Both are reused from frame to frame.
pub struct Connection {
    encode_buf: BytesMut,
    rx_buf: BytesMut,
}

impl Connection {
    /// The frame built last, as it is to be written.
    pub closed spec fn outgoing(&self) -> Seq<u8> {
        contents(self.encode_buf)
    }

    /// The bytes received since the current frame began.
    pub closed spec fn received(&self) -> Seq<u8> {
        contents(self.rx_buf)
    }

    /// A connection with nothing built and nothing received.
    pub fn new() -> (connection: Connection)
        ensures
            connection.outgoing().len() == 0,
            connection.received().len() == 0,
    {
        Connection {
            encode_buf: BytesMut::with_capacity(BUFFER_CAPACITY),
            rx_buf: BytesMut::with_capacity(BUFFER_CAPACITY),
        }
    }

    /// Builds the frame of an encoded response and hands it back, to be
    /// written to the stream with one write. A body that no frame can carry
    /// is refused and leaves the last frame in place.
    pub fn send_response(&mut self, body: &[u8]) -> (r: Result<&[u8], Error>)
        ensures
            final(self).received() == old(self).received(),
            body@.len() <= max_body() ==> (r matches Ok(bytes) && bytes@ == frame(body@))
                && final(self).outgoing() == frame(body@),
            body@.len() > max_body() ==> (r matches Err(Error::Codec(_)))
                && final(self).outgoing() == old(self).outgoing(),
    {
        if body.len() > (isize::MAX as usize) - MAX_LEN {
            return Err(Error::Codec("response too long for a frame".to_string()));
        }
        self.encode_buf.clear();
        let mut prefix = [0u8; 10];
        let size_len = write_varint(body.len() as u64, &mut prefix);
        proof {
            lemma_encoding_len_u64(body.len() as u64);
        }
        self.encode_buf.extend_from_slice(slice_subrange(prefix.as_slice(), 0, size_len));
        self.encode_buf.extend_from_slice(body);
        Ok(as_slice(&self.encode_buf))
    }

    /// The frame built by the last `send_response`.
    pub fn frame_bytes(&self) -> (bytes: &[u8])
        ensures
            bytes@ == self.outgoing(),
    {
        as_slice(&self.encode_buf)
    }

    /// Starts a new frame: forgets the bytes received so far.
    pub fn begin_read(&mut self)
        ensures
            final(self).received().len() == 0,
            final(self).outgoing() == old(self).outgoing(),
    {
        self.rx_buf.clear();
    }

    /// Takes bytes that were read from the stream. More than a buffer can
    /// hold are refused, and nothing is taken.
    pub fn receive(&mut self, bytes: &[u8]) -> (r: Result<(), Error>)
        ensures
            final(self).outgoing() == old(self).outgoing(),
            old(self).received().len() + bytes@.len() <= isize::MAX ==> r is Ok
                && final(self).received() == old(self).received() + bytes@,
            old(self).received().len() + bytes@.len() > isize::MAX ==> (r matches Err(
                Error::Codec(_),
            )) && final(self).received() == old(self).received(),
    {
        let held = self.rx_buf.len();
        if held > isize::MAX as usize || bytes.len() > (isize::MAX as usize) - held {
            return Err(Error::Codec("frame too long to buffer".to_string()));
        }
        self.rx_buf.extend_from_slice(bytes);
        Ok(())
    }

    /// What the bytes received so far amount to, and so what is to be read
    /// next.
    pub fn status(&self) -> (s: FrameStatus)
        ensures
            s == status(self.received()),
    {
        frame_status(as_slice(&self.rx_buf))
    }

    /// The body of the frame received. A frame that the stream ended in is a
    /// transport failure, a frame with a bad length prefix a codec failure.
    pub fn read_message(&self) -> (r: Result<&[u8], Error>)
        ensures
            match status(self.received()) {
                FrameStatus::Complete { start, len } => (r matches Ok(body) && body@
                    == self.received().subrange(start as int, start + len)),
                FrameStatus::NeedLength | FrameStatus::NeedBody(_) => r matches Err(
                    Error::Transport(_),
                ),
                FrameStatus::BadLength | FrameStatus::TooLong => r matches Err(Error::Codec(_)),
            },
    {
        let bytes = as_slice(&self.rx_buf);
        let held = bytes.len();
        match frame_status(bytes) {
            FrameStatus::Complete { start, len } => {
                assert(start + len <= held);
                Ok(slice_subrange(bytes, start, start + len))
            },
            FrameStatus::NeedLength | FrameStatus::NeedBody(_) => Err(
                Error::Transport("stream ended inside a frame".to_string()),
            ),
            FrameStatus::BadLength => Err(Error::Codec("length prefix without end".to_string())),
            FrameStatus::TooLong => Err(Error::Codec("frame too long to buffer".to_string())),
        }
    }
}

/// What `bytes`, read from the start of a frame, amount to.
pub fn frame_status(bytes: &[u8]) -> (s: FrameStatus)
    ensures
        s == status(bytes@),
        match s {
            FrameStatus::Complete { start, len } => start + len <= bytes@.len(),
            _ => true,
        },
{
    proof {
        lemma_terminated_bounds(bytes@, 10);
    }
    match read_varint(bytes) {
        None => if bytes.len() < MAX_LEN {
            FrameStatus::NeedLength
        } else {
            FrameStatus::BadLength
        },
        Some((n, k)) => {
            let there = bytes.len() - k;
            if n > ((isize::MAX as usize) - MAX_LEN) as u64 {
                FrameStatus::TooLong
            } else if there as u64 >= n {
                FrameStatus::Complete { start: k, len: n as usize }
            } else {
                FrameStatus::NeedBody(n as usize - there)
            }
        },
    }
}

/// A frame, followed by anything, is read as complete, and its body is the
/// one that was framed.
pub proof fn lemma_frame_round_trip(body: Seq<u8>, rest: Seq<u8>)
    requires
        body.len() <= max_body(),
    ensures
        status(frame(body) + rest) == (FrameStatus::Complete {
            start: encoding(body.len()).len() as usize,
            len: body.len() as usize,
        }),
        (frame(body) + rest).subrange(
            encoding(body.len()).len() as int,
            (encoding(body.len()).len() + body.len()) as int,
        ) == body,
{
    let n = body.len() as u64;
    lemma_encoding_len_u64(n);
    lemma_decoding_of_encoding(n, body + rest);
    assert(frame(body) + rest == encoding(body.len()) + (body + rest));
}

/// A frame cut short is never read as complete and never as malformed: its
/// reader is still waiting for bytes when the stream ends.
pub proof fn lemma_frame_truncated(body: Seq<u8>, k: int)
    requires
        body.len() <= max_body(),
        0 <= k < frame(body).len(),
    ensures
        status(frame(body).take(k)) is NeedLength || status(frame(body).take(k)) is NeedBody,
{
    let n = body.len() as u64;
    let prefix = encoding(body.len());
    lemma_encoding_len_u64(n);
    if k < prefix.len() {
        lemma_decoding_of_truncation(n, k);
        assert(frame(body).take(k) == prefix.take(k));
    } else {
        let part = body.take(k - prefix.len());
        lemma_decoding_of_encoding(n, part);
        assert(frame(body).take(k) == prefix + part);
    }
}

/// A frame that is complete stays the same frame, and a length prefix that
/// is refused stays refused, whatever bytes come after.
pub proof fn lemma_status_is_final(s: Seq<u8>, more: Seq<u8>)
    requires
        !(status(s) is NeedLength),
        !(status(s) is NeedBody),
    ensures
        status(s + more) == status(s),
{
    lemma_terminated_bounds(s, 10);
    if decoding(s) is Some {
        lemma_terminated_extends(s, more, 10);
        let k = decoding(s)->Some_0.1 as int;
        assert((s + more).take(k) == s.take(k));
    } else {
        lemma_terminated_exhausted(s, more, 10);
    }
}

} // verus!
