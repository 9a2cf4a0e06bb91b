//! Newline-delimited JSON framing for the extension transport.
//!
//! Framing is kept separate from process I/O and from JSON decoding, so
//! protocol behaviour — oversized frames, truncated lines, version mismatch —
//! is decided here on bytes and numbers, while the reads and the decoding
//! happen at the edge.
use vstd::prelude::*;

use crate::protocol::wire::{ErrorCode, ExtensionError, PROTOCOL_VERSION, plain_error};
use crate::protocol::wire::ErrorView;
use crate::text::{decimal, push_decimal, push_str};

verus! {

/// Largest single frame the host will accept.
///
/// A plugin that exceeds it has its message rejected rather than being allowed
/// to grow the host's memory without bound.
pub const MAX_MESSAGE_BYTES: usize = 4194304;

#[derive(Debug)]
pub enum CodecError {
    /// The peer closed the stream cleanly between frames.
    Eof,
    FrameTooLarge { size: usize, limit: usize },
    Malformed(String),
    ProtocolMismatch { found: u32, expected: u32 },
    /// Reading or writing the stream failed; the error's text.
    Io(String),
}

/// A [`CodecError`] as plain values.
pub enum CodecFault {
    Eof,
    FrameTooLarge { size: usize, limit: usize },
    Malformed(Seq<char>),
    ProtocolMismatch { found: u32, expected: u32 },
    Io(Seq<char>),
}

impl View for CodecError {
    type V = CodecFault;

    open spec fn view(&self) -> CodecFault {
        match self {
            CodecError::Eof => CodecFault::Eof,
            CodecError::FrameTooLarge { size, limit } => CodecFault::FrameTooLarge { size: *size, limit: *limit },
            CodecError::Malformed(s) => CodecFault::Malformed(s@),
            CodecError::ProtocolMismatch { found, expected } => CodecFault::ProtocolMismatch {
                found: *found,
                expected: *expected,
            },
            CodecError::Io(s) => CodecFault::Io(s@),
        }
    }
}

/// The sentence each codec failure displays as.
pub open spec fn codec_text(f: CodecFault) -> Seq<char> {
    match f {
        CodecFault::Eof => "the extension stream ended"@,
        CodecFault::FrameTooLarge { size, limit } => "frame of "@ + decimal(size as nat) + " bytes exceeds the "@
            + decimal(limit as nat) + " byte limit"@,
        CodecFault::Malformed(s) => "frame is not valid protocol JSON: "@ + s,
        CodecFault::ProtocolMismatch { found, expected } => "frame declares protocol version "@
            + decimal(found as nat) + ", expected "@ + decimal(expected as nat),
        CodecFault::Io(s) => s,
    }
}

/// The code a plugin is told for each codec failure.
pub open spec fn codec_code(f: CodecFault) -> ErrorCode {
    match f {
        CodecFault::Eof => ErrorCode::PluginFailed,
        CodecFault::FrameTooLarge { .. } => ErrorCode::InvalidRequest,
        CodecFault::Malformed(_) => ErrorCode::InvalidRequest,
        CodecFault::ProtocolMismatch { .. } => ErrorCode::ProtocolMismatch,
        CodecFault::Io(_) => ErrorCode::PluginFailed,
    }
}

impl CodecError {
    /// The sentence this failure displays as.
    pub fn message(&self) -> (s: String)
        ensures
            s@ == codec_text(self@),
    {
        match self {
            CodecError::Eof => String::from_str("the extension stream ended"),
            CodecError::FrameTooLarge { size, limit } => {
                let mut s = String::from_str("frame of ");
                push_decimal(&mut s, *size as u64);
                push_str(&mut s, " bytes exceeds the ");
                push_decimal(&mut s, *limit as u64);
                push_str(&mut s, " byte limit");
                s
            },
            CodecError::Malformed(detail) => {
                let mut s = String::from_str("frame is not valid protocol JSON: ");
                push_str(&mut s, detail.as_str());
                s
            },
            CodecError::ProtocolMismatch { found, expected } => {
                let mut s = String::from_str("frame declares protocol version ");
                push_decimal(&mut s, *found as u64);
                push_str(&mut s, ", expected ");
                push_decimal(&mut s, *expected as u64);
                s
            },
            CodecError::Io(text) => text.clone(),
        }
    }

    /// The error a plugin should be told about, where one can be attributed.
    ///
    /// A frame that never decoded has no `request_id`, so the caller decides
    /// whether it can be answered at all.
    pub fn to_extension_error(&self) -> (e: ExtensionError)
        ensures
            e@ == plain_error(codec_code(self@), codec_text(self@)),
    {
        let code = match self {
            CodecError::Eof => ErrorCode::PluginFailed,
            CodecError::FrameTooLarge { .. } | CodecError::Malformed(_) => ErrorCode::InvalidRequest,
            CodecError::ProtocolMismatch { .. } => ErrorCode::ProtocolMismatch,
            CodecError::Io(_) => ErrorCode::PluginFailed,
        };
        ExtensionError::new(code, self.message())
    }

    /// True when nothing more can be read after this failure: the stream
    /// ended, or reading it failed. The connection survives a single bad
    /// frame — an oversized, malformed or mismatched one — and reading goes
    /// on with the next.
    pub fn ends_stream(&self) -> (b: bool)
        ensures
            b == (self@ is Eof || self@ is Io),
    {
        match self {
            CodecError::Eof | CodecError::Io(_) => true,
            _ => false,
        }
    }
}

/// Accepts a decoded frame's protocol version, or reports the mismatch.
pub fn check_protocol(found: u32) -> (r: Result<(), CodecError>)
    ensures
        r is Ok <==> found == PROTOCOL_VERSION,
        r matches Err(e) ==> e@ == (CodecFault::ProtocolMismatch { found, expected: PROTOCOL_VERSION }),
{
    if found != PROTOCOL_VERSION {
        return Err(CodecError::ProtocolMismatch { found, expected: PROTOCOL_VERSION });
    }
    Ok(())
}

/// Accepts an encoded frame of `len` bytes for writing, or reports it as too
/// large.
pub fn check_frame_size(len: usize) -> (r: Result<(), CodecError>)
    ensures
        r is Ok <==> len <= MAX_MESSAGE_BYTES,
        r matches Err(e) ==> e@ == (CodecFault::FrameTooLarge { size: len, limit: MAX_MESSAGE_BYTES }),
{
    if len > MAX_MESSAGE_BYTES {
        return Err(CodecError::FrameTooLarge { size: len, limit: MAX_MESSAGE_BYTES });
    }
    Ok(())
}

/// The length of a line once its trailing `\n` and `\r` bytes are dropped.
pub open spec fn payload_len(line: Seq<u8>) -> nat
    decreases line.len(),
{
    if line.len() > 0 && (line.last() == 10u8 || line.last() == 13u8) {
        payload_len(line.drop_last())
    } else {
        line.len()
    }
}

/// How much of `line` is the frame: everything before its trailing newline
/// and carriage-return bytes. Zero means a blank line, which is skipped
/// rather than reported, so a plugin may send blank lines as a keepalive.
pub fn payload_length(line: &[u8]) -> (n: usize)
    ensures
        n == payload_len(line@),
        n <= line@.len(),
{
    let mut n: usize = line.len();
    assert(line@.take(line@.len() as int) =~= line@);
    while n > 0 && (line[n - 1] == 10u8 || line[n - 1] == 13u8)
        invariant
            n <= line@.len(),
            payload_len(line@) == payload_len(line@.take(n as int)),
        decreases n,
    {
        assert(line@.take(n as int).drop_last() =~= line@.take(n - 1));
        n -= 1;
    }
    assert(line@.take(line@.len() as int) =~= line@);
    n
}

/// Where the first newline of `s` is, if it has one.
pub open spec fn first_newline(s: Seq<u8>) -> Option<int> {
    if exists|i: int| 0 <= i < s.len() && s[i] == 10u8 {
        Some(choose|i: int| 0 <= i < s.len() && s[i] == 10u8 && forall|j: int| 0 <= j < i ==> s[j] != 10u8)
    } else {
        None
    }
}

/// How many bytes of a non-empty buffer belong to the current frame: up to
/// and including its first newline, or all of them.
pub open spec fn frame_share(s: Seq<u8>) -> nat {
    match first_newline(s) {
        Some(i) => (i + 1) as nat,
        None => s.len(),
    }
}

/// What one step of reading a frame found.
#[derive(Debug, Clone, Copy, PartialEq, Eq, Structural)]
pub enum Feed {
    /// The frame continues in the bytes still to come.
    More,
    /// The frame ended at the newline just consumed, within the limit.
    Complete,
    /// The frame ended at the newline just consumed, over the limit; its
    /// bytes were dropped, so the next frame starts cleanly.
    TooLarge { size: usize },
}

/// A frame as it is written: the encoded message, then a newline.
pub open spec fn framed(payload: Seq<u8>) -> Seq<u8> {
    payload.push(10u8)
}

/// Frames an encoded message for writing: the message and its terminating
/// newline, or [`CodecError::FrameTooLarge`] when the message is over
/// [`MAX_MESSAGE_BYTES`].
pub fn frame_message(encoded: &[u8]) -> (r: Result<Vec<u8>, CodecError>)
    ensures
        r is Ok <==> encoded@.len() <= MAX_MESSAGE_BYTES,
        r matches Ok(f) ==> f@ == framed(encoded@),
        r matches Err(e) ==> e@ == (CodecFault::FrameTooLarge { size: encoded@.len() as usize, limit: MAX_MESSAGE_BYTES }),
{
    check_frame_size(encoded.len())?;
    let mut frame: Vec<u8> = Vec::new();
    let mut k: usize = 0;
    while k < encoded.len()
        invariant
            0 <= k <= encoded@.len(),
            frame@ == encoded@.take(k as int),
        decreases encoded@.len() - k,
    {
        frame.push(encoded[k]);
        assert(encoded@.take(k + 1) =~= encoded@.take(k as int).push(encoded@[k as int]));
        k += 1;
    }
    assert(encoded@.take(encoded@.len() as int) =~= encoded@);
    frame.push(10u8);
    Ok(frame)
}

/// Reads one frame from a byte stream that arrives in buffers, buffering at
/// most [`MAX_MESSAGE_BYTES`].
///
/// An oversized frame is drained to its terminating newline before it is
/// reported, so one bad frame costs the plugin that frame rather than the
/// connection.
pub struct FrameReader {
    size: usize,
    overrun: bool,
    line: Vec<u8>,
}

/// A [`FrameReader`] as plain values.
pub struct FrameView {
    /// Bytes of the frame seen so far, the newline included.
    pub size: nat,
    /// True once the frame has gone past the limit.
    pub overrun: bool,
    /// The frame's bytes, kept only while it is within the limit.
    pub line: Seq<u8>,
}

/// One [`FrameReader::feed`]: the reader after taking its share of `chunk`,
/// and what it found.
pub open spec fn feed_step(v: FrameView, chunk: Seq<u8>) -> (FrameView, Feed) {
    let taken = frame_share(chunk);
    let size: nat = if v.size + taken > usize::MAX { usize::MAX as nat } else { v.size + taken };
    let overrun = size > MAX_MESSAGE_BYTES;
    let line = if overrun { Seq::<u8>::empty() } else { v.line + chunk.take(taken as int) };
    let found = if first_newline(chunk) is None {
        Feed::More
    } else if overrun {
        Feed::TooLarge { size: size as usize }
    } else {
        Feed::Complete
    };
    (FrameView { size, overrun, line }, found)
}

/// Feeds `chunks` in turn until one ends the frame: the reader then, what
/// the last feed found (`More` when the chunks ran out first), and how many
/// bytes were taken from the stream.
pub open spec fn read_chunks(v: FrameView, chunks: Seq<Seq<u8>>) -> (FrameView, Feed, nat)
    decreases chunks.len(),
{
    if chunks.len() == 0 {
        (v, Feed::More, 0)
    } else {
        let (w, found) = feed_step(v, chunks[0]);
        let taken = frame_share(chunks[0]);
        if found == Feed::More {
            let (u, last, more) = read_chunks(w, chunks.drop_first());
            (u, last, taken + more)
        } else {
            (w, found, taken)
        }
    }
}

/// A reader at the start of a frame, as plain values.
pub open spec fn fresh_frame() -> FrameView {
    FrameView { size: 0, overrun: false, line: Seq::empty() }
}

impl View for FrameReader {
    type V = FrameView;

    closed spec fn view(&self) -> FrameView {
        FrameView { size: self.size as nat, overrun: self.overrun, line: self.line@ }
    }
}

impl FrameReader {
    #[verifier::type_invariant]
    spec fn consistent(self) -> bool {
        &&& self.overrun <==> self.size > MAX_MESSAGE_BYTES
        &&& !self.overrun ==> self.line@.len() == self.size
        &&& self.overrun ==> self.line@.len() == 0
    }

    /// A reader at the start of a frame.
    pub fn new() -> (r: FrameReader)
        ensures
            r@.size == 0,
            !r@.overrun,
            r@.line == Seq::<u8>::empty(),
    {
        FrameReader { size: 0, overrun: false, line: Vec::new() }
    }

    /// The frame's bytes so far.
    pub fn line(&self) -> (l: &Vec<u8>)
        ensures
            l@ == self@.line,
    {
        &self.line
    }

    /// Takes the bytes of `available` that belong to this frame and reports
    /// how many were taken and whether the frame is over.
    ///
    /// Frames are counted in saturating arithmetic, so a stream longer than
    /// the address space still reports a frame too large.
    pub fn feed(&mut self, available: &[u8]) -> (r: (usize, Feed))
        requires
            available@.len() > 0,
        ensures
            r.0 == frame_share(available@),
            r.0 <= available@.len(),
            final(self)@.size == if old(self)@.size + r.0 > usize::MAX { usize::MAX as int } else { old(self)@.size + r.0 },
            final(self)@.overrun == (final(self)@.size > MAX_MESSAGE_BYTES),
            !final(self)@.overrun ==> final(self)@.line == old(self)@.line + available@.take(r.0 as int),
            final(self)@.overrun ==> final(self)@.line == Seq::<u8>::empty(),
            first_newline(available@) is None ==> r.1 == Feed::More,
            first_newline(available@) is Some ==> r.1 == if final(self)@.overrun {
                Feed::TooLarge { size: final(self)@.size as usize }
            } else {
                Feed::Complete
            },
            (final(self)@, r.1) == feed_step(old(self)@, available@),
    {
        proof { use_type_invariant(&*self); }
        let mut i: usize = 0;
        while i < available.len() && available[i] != 10u8
            invariant
                0 <= i <= available@.len(),
                forall|j: int| 0 <= j < i ==> available@[j] != 10u8,
            decreases available@.len() - i,
        {
            i += 1;
        }
        let complete = i < available.len();
        let taken: usize = if complete { i + 1 } else { available.len() };
        proof {
            if complete {
                assert(exists|k: int| 0 <= k < available@.len() && available@[k] == 10u8);
                let c = choose|k: int| 0 <= k < available@.len() && available@[k] == 10u8
                    && forall|j: int| 0 <= j < k ==> available@[j] != 10u8;
                if c < i {
                    assert(available@[c] != 10u8);
                } else if c > i {
                    assert(available@[i as int] == 10u8);
                }
            } else {
                assert(!exists|k: int| 0 <= k < available@.len() && available@[k] == 10u8);
            }
        }
        let size = self.size.saturating_add(taken);
        if size > MAX_MESSAGE_BYTES {
            *self = FrameReader { size, overrun: true, line: Vec::new() };
        } else {
            let mut line = self.line.clone();
            let ghost before = line@;
            let mut k: usize = 0;
            while k < taken
                invariant
                    0 <= k <= taken <= available@.len(),
                    line@ == before + available@.take(k as int),
                decreases taken - k,
            {
                line.push(available[k]);
                assert(available@.take(k + 1) =~= available@.take(k as int).push(available@[k as int]));
                k += 1;
            }
            assert(self.line@ =~= before);
            *self = FrameReader { size, overrun: false, line };
        }
        let outcome = if !complete {
            Feed::More
        } else if self.overrun {
            Feed::TooLarge { size: self.size }
        } else {
            Feed::Complete
        };
        (taken, outcome)
    }

    /// What the stream ending means for the frame: a frame over the limit is
    /// still reported as too large, nothing read at all is the end of the
    /// stream, and a final frame without a newline is taken as it stands.
    pub fn at_end(&self) -> (r: Result<(), CodecError>)
        ensures
            self@.overrun ==> (r matches Err(e) && e@ == (CodecFault::FrameTooLarge {
                size: self@.size as usize,
                limit: MAX_MESSAGE_BYTES,
            })),
            !self@.overrun && self@.line.len() == 0 ==> (r matches Err(e) && e@ == CodecFault::Eof),
            !self@.overrun && self@.line.len() > 0 ==> r is Ok,
    {
        proof { use_type_invariant(self); }
        if self.overrun {
            return Err(CodecError::FrameTooLarge { size: self.size, limit: MAX_MESSAGE_BYTES });
        }
        if self.line.len() == 0 {
            return Err(CodecError::Eof);
        }
        Ok(())
    }
}


proof fn lemma_newline_at(c: Seq<u8>, m: int)
    requires
        0 <= m < c.len(),
        c[m] == 10u8,
        forall|j: int| 0 <= j < m ==> c[j] != 10u8,
    ensures
        first_newline(c) == Some(m),
{
    assert(exists|k: int| 0 <= k < c.len() && c[k] == 10u8);
    let i = choose|i: int| 0 <= i < c.len() && c[i] == 10u8 && forall|j: int| 0 <= j < i ==> c[j] != 10u8;
    assert(0 <= m < c.len() && c[m] == 10u8 && forall|j: int| 0 <= j < m ==> c[j] != 10u8);
    if i < m {
        assert(c[i] != 10u8);
    } else if i > m {
        assert(c[m] != 10u8);
    }
}

proof fn lemma_no_newline(c: Seq<u8>)
    requires
        forall|j: int| 0 <= j < c.len() ==> c[j] != 10u8,
    ensures
        first_newline(c) is None,
{
}

/// The step of [`lemma_a_written_frame_reads_back`]: a reader part-way
/// through a written frame, fed the rest of the stream in chunks, ends the
/// frame at its newline with the whole frame read.
proof fn lemma_rest_of_a_frame(payload: Seq<u8>, v: FrameView, chunks: Seq<Seq<u8>>, rest: Seq<u8>)
    requires
        forall|i: int| 0 <= i < payload.len() ==> payload[i] != 10u8,
        payload.len() < MAX_MESSAGE_BYTES,
        forall|j: int| 0 <= j < chunks.len() ==> (#[trigger] chunks[j]).len() > 0,
        !v.overrun,
        v.size <= payload.len(),
        v.line == framed(payload).take(v.size as int),
        chunks.flatten() == framed(payload).skip(v.size as int) + rest,
    ensures
        read_chunks(v, chunks) == (
            FrameView { size: payload.len() + 1, overrun: false, line: framed(payload) },
            Feed::Complete,
            (payload.len() + 1 - v.size) as nat,
        ),
    decreases chunks.len(),
{
    let f = framed(payload);
    let s = f.skip(v.size as int) + rest;
    let m = payload.len() - v.size;
    assert(s.len() > m);
    assert(s[m] == 10u8);
    if chunks.len() == 0 {
        assert(chunks.flatten() =~= Seq::<u8>::empty());
        assert(false);
    }
    let c = chunks[0];
    let tail = chunks.drop_first();
    assert(chunks.flatten() == c + tail.flatten());
    assert(c.len() > 0);
    assert forall|j: int| 0 <= j < c.len() implies c[j] == s[j] by {
        assert((c + tail.flatten())[j] == c[j]);
    }
    assert forall|j: int| 0 <= j < m && j < c.len() implies c[j] != 10u8 by {
        assert(s[j] == payload[v.size + j]);
    }
    if c.len() <= m {
        lemma_no_newline(c);
        assert(frame_share(c) == c.len());
        assert(c.take(c.len() as int) =~= c);
        let w = FrameView { size: v.size + c.len(), overrun: false, line: v.line + c };
        assert(feed_step(v, c) == (w, Feed::More));
        assert(w.line =~= f.take(w.size as int)) by {
            assert forall|j: int| 0 <= j < w.size implies w.line[j] == f.take(w.size as int)[j] by {
                if j >= v.size {
                    assert(c[j - v.size] == s[j - v.size]);
                }
            }
        }
        assert(tail.flatten() =~= f.skip(w.size as int) + rest) by {
            assert forall|j: int| 0 <= j < tail.flatten().len() implies tail.flatten()[j] == (f.skip(
                w.size as int,
            ) + rest)[j] by {
                assert((c + tail.flatten())[c.len() + j] == tail.flatten()[j]);
            }
        }
        assert forall|j: int| 0 <= j < tail.len() implies (#[trigger] tail[j]).len() > 0 by {
            assert(tail[j] == chunks[j + 1]);
        }
        lemma_rest_of_a_frame(payload, w, tail, rest);
    } else {
        assert(c[m] == s[m]);
        lemma_newline_at(c, m);
        assert(frame_share(c) == m + 1);
        assert(v.line + c.take(m + 1) =~= f) by {
            assert forall|j: int| 0 <= j < f.len() implies (v.line + c.take(m + 1))[j] == f[j] by {
                if j >= v.size {
                    assert(c[j - v.size] == s[j - v.size]);
                }
            }
        }
    }
}

/// A frame reads back as it was written. Whatever buffers the stream arrives
/// in, a fresh reader fed a written frame of a message under
/// [`MAX_MESSAGE_BYTES`] ends the frame at its newline with exactly the
/// frame read and nothing after it taken, so frames written in sequence are
/// read back in order; and a message that ends in neither newline nor
/// carriage return is the frame's whole payload. (A message of exactly the
/// limit is written, but its newline takes the frame past the limit when
/// read back.)
pub proof fn lemma_a_written_frame_reads_back(payload: Seq<u8>, chunks: Seq<Seq<u8>>, rest: Seq<u8>)
    requires
        forall|i: int| 0 <= i < payload.len() ==> payload[i] != 10u8,
        payload.len() < MAX_MESSAGE_BYTES,
        forall|j: int| 0 <= j < chunks.len() ==> (#[trigger] chunks[j]).len() > 0,
        chunks.flatten() == framed(payload) + rest,
    ensures
        read_chunks(fresh_frame(), chunks) == (
            FrameView { size: payload.len() + 1, overrun: false, line: framed(payload) },
            Feed::Complete,
            payload.len() + 1,
        ),
        payload.len() > 0 && payload.last() != 13u8 ==> payload_len(framed(payload)) == payload.len(),
{
    assert(framed(payload).skip(0) =~= framed(payload));
    assert(framed(payload).take(0) =~= Seq::<u8>::empty());
    lemma_rest_of_a_frame(payload, fresh_frame(), chunks, rest);
    if payload.len() > 0 && payload.last() != 13u8 {
        assert(framed(payload).drop_last() =~= payload);
        assert(payload.last() != 10u8);
        assert(payload_len(payload) == payload.len());
        assert(payload_len(framed(payload)) == payload_len(payload));
    }
}

} // verus!
