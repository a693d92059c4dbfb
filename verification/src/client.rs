//! The client's decision logic: classifying API responses by status code,
//! framing the newline-delimited watch stream, and deciding what each
//! decoded line or stream failure means for the event stream.
//!
//! The transport performs the requests and the JSON codec decodes the
//! bytes; every choice that follows from what came back is made here.

use vstd::prelude::*;

verus! {

use crate::meta::Status;
use crate::watcher::WireEvent;

/// An error surfaced by the client.
#[derive(Debug, PartialEq)]
pub enum Error {
    /// The server answered with a structured `Status`.
    Api(Status),
    /// A body or line could not be decoded; carries the decoder's message.
    Decode(String),
    /// Reading the event stream failed; carries the transport message.
    ReadEvents(String),
}

/// Classifies a response: a status in `[400, 600)` fails with the parsed
/// `Status` when the body held one, and otherwise with a `Status`
/// synthesized from the code, the body text and the fixed reason
/// `Failed to parse error data`; any other status code passes.
pub fn handle_api_errors(text: &str, code: u16, parsed: Option<Status>) -> (r: Result<
    (),
    Error,
>)
    ensures
        if 400 <= code < 600 {
            match parsed {
                Some(s) => r == Err::<(), Error>(Error::Api(s)),
                None => {
                    &&& r matches Err(Error::Api(s))
                    &&& s.code == code
                    &&& s.message@ == text@
                    &&& s.reason@ == "Failed to parse error data"@
                    &&& s.status is None
                },
            }
        } else {
            r == Ok::<(), Error>(())
        },
{
    if 400 <= code && code < 600 {
        match parsed {
            Some(s) => Err(Error::Api(s)),
            None => Err(
                Error::Api(
                    Status {
                        status: None,
                        code,
                        message: text.to_owned(),
                        reason: "Failed to parse error data".to_owned(),
                    },
                ),
            ),
        }
    } else {
        Ok(())
    }
}

/// Whether a byte sequence holds a newline.
pub open spec fn has_newline(s: Seq<u8>) -> bool {
    exists|i: int| 0 <= i < s.len() && s[i] == 0x0A
}

/// The frame buffer of the watch stream: bytes go in as they arrive, and
/// complete newline-terminated lines come out. An incomplete trailing line
/// simply stays buffered; at the end of the stream the caller drops it, as
/// watchers always reconnect from the last seen `resourceVersion`.
pub struct LineBuffer {
    buf: Vec<u8>,
}

impl View for LineBuffer {
    type V = Seq<u8>;

    closed spec fn view(&self) -> Seq<u8> {
        self.buf@
    }
}

impl LineBuffer {
    /// An empty buffer.
    pub fn new() -> (r: LineBuffer)
        ensures
            r@.len() == 0,
    {
        LineBuffer { buf: Vec::new() }
    }

    /// Appends a chunk as it arrived from the transport.
    pub fn push_chunk(&mut self, chunk: &[u8])
        ensures
            final(self)@ == old(self)@ + chunk@,
    {
        let mut incoming = vstd::slice::slice_to_vec(chunk);
        self.buf.append(&mut incoming);
    }

    /// Takes the first complete line off the buffer: everything up to the
    /// first newline, which is consumed with it. Without a newline nothing
    /// is taken.
    pub fn next_line(&mut self) -> (r: Option<Vec<u8>>)
        ensures
            if has_newline(old(self)@) {
                &&& r matches Some(line)
                &&& line@.len() < old(self)@.len()
                &&& old(self)@[line@.len() as int] == 0x0A
                &&& forall|j: int| 0 <= j < line@.len() ==> old(self)@[j] != 0x0A
                &&& line@ == old(self)@.subrange(0, line@.len() as int)
                &&& final(self)@ == old(self)@.subrange(
                    line@.len() as int + 1,
                    old(self)@.len() as int,
                )
            } else {
                r is None && final(self)@ == old(self)@
            },
    {
        let n = self.buf.len();
        let mut i: usize = 0;
        while i < n
            invariant
                n == self.buf@.len(),
                i <= n,
                self.buf@ == old(self)@,
                forall|j: int| 0 <= j < i ==> self.buf@[j] != 0x0A,
            decreases n - i,
        {
            if self.buf[i] == 0x0A {
                let mut tail = self.buf.split_off(i + 1);
                core::mem::swap(&mut self.buf, &mut tail);
                tail.pop();
                proof {
                    assert(tail@ =~= old(self)@.subrange(0, i as int));
                }
                return Some(tail);
            }
            i = i + 1;
        }
        None
    }
}

/// What the decoder made of one complete line.
#[derive(Debug, PartialEq)]
pub enum LineParse<K> {
    /// The line decoded as a watch event.
    Event(WireEvent<K>),
    /// The decoder ran out of input mid-value: an incomplete line.
    Eof,
    /// The line was no watch event, but decoded as a `Status`: a general
    /// error response on the stream.
    ErrorStatus(Status),
    /// The line decoded as neither; carries the decoder's message.
    Garbled(String),
}

/// Decides what one decoded line contributes to the event stream: an event
/// passes through, an incomplete line is dropped — the watcher reconnects —
/// a status line fails as an API error, and anything else as a decode
/// error.
pub fn classify_watch_line<K>(parse: LineParse<K>) -> (r: Option<Result<WireEvent<K>, Error>>)
    ensures
        match parse {
            LineParse::Event(ev) => r == Some(Ok::<WireEvent<K>, Error>(ev)),
            LineParse::Eof => r is None,
            LineParse::ErrorStatus(s) => r == Some(Err::<WireEvent<K>, Error>(Error::Api(s))),
            LineParse::Garbled(m) => r == Some(Err::<WireEvent<K>, Error>(Error::Decode(m))),
        },
{
    match parse {
        LineParse::Event(ev) => Some(Ok(ev)),
        LineParse::Eof => None,
        LineParse::ErrorStatus(s) => Some(Err(Error::Api(s))),
        LineParse::Garbled(m) => Some(Err(Error::Decode(m))),
    }
}

/// How reading the underlying body failed.
#[derive(Debug, PartialEq)]
pub enum IoFailure {
    /// The client-side idle timeout elapsed.
    TimedOut,
    /// The chunked decoder hit an unexpected end of input, as long watches
    /// routinely do.
    UnexpectedEof,
    /// Any other transport failure; carries its message.
    Other(String),
}

/// Decides what a transport failure contributes to the event stream: idle
/// timeouts and chunked-decoder EOFs are absorbed so the watcher can
/// reconnect; every other failure surfaces.
pub fn classify_stream_failure(failure: IoFailure) -> (r: Option<Error>)
    ensures
        match failure {
            IoFailure::TimedOut => r is None,
            IoFailure::UnexpectedEof => r is None,
            IoFailure::Other(m) => r == Some(Error::ReadEvents(m)),
        },
{
    match failure {
        IoFailure::TimedOut => None,
        IoFailure::UnexpectedEof => None,
        IoFailure::Other(m) => Some(Error::ReadEvents(m)),
    }
}

/// Splits one binary WebSocket message into its channel — the first byte:
/// 0 stdin, 1 stdout, 2 stderr, 3 error status, 4 resize — and its payload;
/// an empty message names no channel.
pub fn split_channel_frame(frame: &[u8]) -> (r: Option<(u8, Vec<u8>)>)
    ensures
        if frame@.len() > 0 {
            &&& r matches Some((channel, payload))
            &&& channel == frame@[0]
            &&& payload@ == frame@.subrange(1, frame@.len() as int)
        } else {
            r is None
        },
{
    if frame.len() == 0 {
        return None;
    }
    let channel = frame[0];
    let whole = vstd::slice::slice_to_vec(frame);
    let mut rest = whole;
    let mut tail = rest.split_off(1);
    proof {
        assert(tail@ =~= frame@.subrange(1, frame@.len() as int));
    }
    Some((channel, tail))
}

} // verus!
