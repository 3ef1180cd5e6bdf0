//! The shipgate connection's reading and sending: how far a message has
//! come, and what to do after each read or write.

use vstd::prelude::*;

use crate::message::bytes::{get_be16, read_u16_be};

verus! {

/// The size of a shipgate message header.
pub const HEADER_LEN: usize = 8;

/// The size of the buffer messages are read into.
pub const READ_BUFFER_LEN: usize = 4096;

/// Where reading a message stands: bytes of the header read so far, or
/// bytes of the message read so far and its size (header included).
#[derive(Clone, Copy, Debug, PartialEq, Eq, Structural)]
pub enum ReadState {
    ReadingHdr(usize),
    ReadingBody(usize, usize),
}

/// What follows a read.
#[derive(Clone, Copy, Debug, PartialEq, Eq, Structural)]
pub enum ReadEvent {
    /// More bytes are needed: wait until the connection is readable.
    Wait,
    /// The header is complete: go on reading the message.
    HeaderDone,
    /// The message of this size (the first bytes of the buffer) is
    /// complete: deliver it and go on reading the next one.
    Message(usize),
}

/// The counters of a state fit the header and the buffer.
pub open spec fn read_state_ok(s: ReadState) -> bool {
    match s {
        ReadState::ReadingHdr(start) => start <= HEADER_LEN,
        ReadState::ReadingBody(start, size) => start <= size <= READ_BUFFER_LEN,
    }
}

/// The part of the buffer the next read fills.
pub open spec fn wanted_range(s: ReadState) -> (usize, usize) {
    match s {
        ReadState::ReadingHdr(start) => (start, HEADER_LEN),
        ReadState::ReadingBody(start, size) => (start, size),
    }
}

/// The state and event after `bytes` more bytes were read into `buf`; a
/// complete header gives the message size in its first two bytes, big
/// endian.
pub open spec fn read_advanced(s: ReadState, bytes: usize, buf: Seq<u8>) -> (ReadState, ReadEvent) {
    match s {
        ReadState::ReadingHdr(start) => if bytes < HEADER_LEN - start {
            (ReadState::ReadingHdr((start + bytes) as usize), ReadEvent::Wait)
        } else {
            (ReadState::ReadingBody(HEADER_LEN, get_be16(buf, 0) as usize), ReadEvent::HeaderDone)
        },
        ReadState::ReadingBody(start, size) => if bytes < size - start {
            (ReadState::ReadingBody((start + bytes) as usize, size), ReadEvent::Wait)
        } else {
            (ReadState::ReadingHdr(0), ReadEvent::Message(size))
        },
    }
}

impl ReadState {
    /// The state before anything is read.
    pub fn new() -> (r: ReadState)
        ensures
            r == ReadState::ReadingHdr(0),
    {
        ReadState::ReadingHdr(0)
    }

    /// Whether the counters fit the header and the buffer: a message whose
    /// header gives a size below the header's or above the buffer's cannot
    /// be read on.
    pub fn is_ok(&self) -> (r: bool)
        ensures
            r == read_state_ok(*self),
    {
        match *self {
            ReadState::ReadingHdr(start) => start <= HEADER_LEN,
            ReadState::ReadingBody(start, size) => start <= size && size <= READ_BUFFER_LEN,
        }
    }

    /// The part of the buffer, `start..end`, the next read fills; when it
    /// is empty, nothing is read and the read counts as zero bytes.
    pub fn wanted(&self) -> (r: (usize, usize))
        ensures
            r == wanted_range(*self),
    {
        match *self {
            ReadState::ReadingHdr(start) => (start, HEADER_LEN),
            ReadState::ReadingBody(start, size) => (start, size),
        }
    }

    /// The state and event after `bytes` more bytes were read into the
    /// part [`wanted`](ReadState::wanted) names of `buf`.
    pub fn advance(self, bytes: usize, buf: &[u8]) -> (r: (ReadState, ReadEvent))
        requires
            read_state_ok(self),
            bytes <= wanted_range(self).1 - wanted_range(self).0,
            buf@.len() >= HEADER_LEN,
        ensures
            r == read_advanced(self, bytes, buf@),
            read_state_ok(r.0) || r.1 == ReadEvent::HeaderDone,
    {
        match self {
            ReadState::ReadingHdr(start) => {
                if bytes < HEADER_LEN - start {
                    (ReadState::ReadingHdr(start + bytes), ReadEvent::Wait)
                } else {
                    let size = read_u16_be(buf);
                    (ReadState::ReadingBody(HEADER_LEN, size as usize), ReadEvent::HeaderDone)
                }
            },
            ReadState::ReadingBody(start, size) => {
                if bytes < size - start {
                    (ReadState::ReadingBody(start + bytes, size), ReadEvent::Wait)
                } else {
                    (ReadState::ReadingHdr(0), ReadEvent::Message(size))
                }
            },
        }
    }
}

/// Where sending stands: no message under way, or the buffer of one
/// written from this offset on.
#[derive(Clone, Copy, Debug, PartialEq, Eq, Structural)]
pub enum SendState {
    WaitingForMsg,
    SendingMsg(usize),
}

impl SendState {
    /// The state before anything is sent.
    pub fn new() -> (r: SendState)
        ensures
            r == SendState::WaitingForMsg,
    {
        SendState::WaitingForMsg
    }

    /// The state after `bytes` bytes of a message buffer of `len` bytes
    /// were written from the current offset, and whether to wait for the
    /// connection to be writable again: a write shorter than the buffer
    /// resumes after the written bytes; any other ends the message.
    pub fn after_write(self, bytes: usize, len: usize) -> (r: (SendState, bool))
        requires
            self matches SendState::SendingMsg(start) ==> start + bytes <= usize::MAX,
        ensures
            self is WaitingForMsg ==> r == (SendState::WaitingForMsg, false),
            self matches SendState::SendingMsg(start) ==> r == (if bytes < len {
                (SendState::SendingMsg((start + bytes) as usize), true)
            } else {
                (SendState::WaitingForMsg, false)
            }),
    {
        match self {
            SendState::WaitingForMsg => (SendState::WaitingForMsg, false),
            SendState::SendingMsg(start) => {
                if bytes < len {
                    (SendState::SendingMsg(start + bytes), true)
                } else {
                    (SendState::WaitingForMsg, false)
                }
            },
        }
    }
}

} // verus!
