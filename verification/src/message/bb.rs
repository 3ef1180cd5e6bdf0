//! Blue Burst messages: an eight-byte header (total size, message type and
//! flags, all little-endian) followed by the body.

use vstd::prelude::*;

use crate::message::bytes::{
    le16, le32, get_le16, get_le32, read_u16_le, read_u32_le, put_u16_le, put_u32_le, put_bytes,
    lemma_le16_roundtrip, lemma_le32_roundtrip,
};

verus! {

/// Why a message could not be read.
#[derive(Clone, Copy, Debug, PartialEq, Eq, Structural)]
pub enum SerialError {
    /// The input ended inside the header.
    UnexpectedEof,
    /// The body is shorter than the header says; it should have had this
    /// many bytes.
    MissingBytes(u16),
    /// A fixed-size part came out short: this many bytes were there.
    ShortRead(usize),
    /// A padding field that must be zero was not.
    BadPadding,
}

/// Values written to and read from the wire.
pub trait Serial: Sized {
    /// The value can be written.
    spec fn serialize_ok(&self) -> bool;

    /// The bytes written for the value.
    spec fn spec_serialize(&self) -> Seq<u8>;

    /// Reading from `src` is defined.
    spec fn deserialize_ok(src: Seq<u8>) -> bool;

    /// `r` is what reading from `src` gives: the value and the number of
    /// bytes it took, or why it failed.
    spec fn deserialized(src: Seq<u8>, r: Result<(Self, usize), SerialError>) -> bool;

    /// The bytes of the value.
    fn serialize(&self) -> (r: Vec<u8>)
        requires
            self.serialize_ok(),
        ensures
            r@ == self.spec_serialize(),
    ;

    /// Reads a value from the front of `src`.
    fn deserialize(src: &[u8]) -> (r: Result<(Self, usize), SerialError>)
        requires
            Self::deserialize_ok(src@),
        ensures
            Self::deserialized(src@, r),
    ;
}

/// The banner that opens the welcome message.
pub open spec fn welcome_banner() -> Seq<u8> {
    seq![
        0x50u8, 0x68, 0x61, 0x6e, 0x74, 0x61, 0x73, 0x79, 0x20, 0x53, 0x74, 0x61, 0x72, 0x20, 0x4f, 0x6e,
        0x6c, 0x69, 0x6e, 0x65, 0x20, 0x42, 0x6c, 0x75, 0x65, 0x20, 0x42, 0x75, 0x72, 0x73, 0x74, 0x20,
        0x47, 0x61, 0x6d, 0x65, 0x20, 0x53, 0x65, 0x72, 0x76, 0x65, 0x72, 0x2e, 0x20, 0x43, 0x6f, 0x70,
        0x79, 0x72, 0x69, 0x67, 0x68, 0x74, 0x20, 0x31, 0x39, 0x39, 0x39, 0x2d, 0x32, 0x30, 0x30, 0x34,
        0x20, 0x53, 0x4f, 0x4e, 0x49, 0x43, 0x54, 0x45, 0x41, 0x4d, 0x2e,
    ]
}

/// "Phantasy Star Online Blue Burst Game Server. Copyright 1999-2004
/// SONICTEAM." as bytes.
fn banner_bytes() -> (r: Vec<u8>)
    ensures
        r@ == welcome_banner(),
{
    let r = vec![
        0x50u8, 0x68, 0x61, 0x6e, 0x74, 0x61, 0x73, 0x79, 0x20, 0x53, 0x74, 0x61, 0x72, 0x20, 0x4f, 0x6e,
        0x6c, 0x69, 0x6e, 0x65, 0x20, 0x42, 0x6c, 0x75, 0x65, 0x20, 0x42, 0x75, 0x72, 0x73, 0x74, 0x20,
        0x47, 0x61, 0x6d, 0x65, 0x20, 0x53, 0x65, 0x72, 0x76, 0x65, 0x72, 0x2e, 0x20, 0x43, 0x6f, 0x70,
        0x79, 0x72, 0x69, 0x67, 0x68, 0x74, 0x20, 0x31, 0x39, 0x39, 0x39, 0x2d, 0x32, 0x30, 0x30, 0x34,
        0x20, 0x53, 0x4f, 0x4e, 0x49, 0x43, 0x54, 0x45, 0x41, 0x4d, 0x2e,
    ];
    assert(r@ =~= welcome_banner());
    r
}

/// The welcome message: the banner, then the server's and the client's
/// cipher seeds.
#[derive(Clone, Debug)]
pub struct Welcome(pub Vec<u8>, pub Vec<u8>);

impl Serial for Welcome {
    open spec fn serialize_ok(&self) -> bool {
        true
    }

    open spec fn spec_serialize(&self) -> Seq<u8> {
        welcome_banner() + self.0@ + self.1@
    }

    /// Reading a welcome message is not supported: a server only sends it.
    open spec fn deserialize_ok(src: Seq<u8>) -> bool {
        false
    }

    open spec fn deserialized(src: Seq<u8>, r: Result<(Self, usize), SerialError>) -> bool {
        true
    }

    fn serialize(&self) -> (r: Vec<u8>) {
        let mut out = banner_bytes();
        put_bytes(&mut out, self.0.as_slice());
        put_bytes(&mut out, self.1.as_slice());
        out
    }

    fn deserialize(src: &[u8]) -> (r: Result<(Self, usize), SerialError>) {
        Err(SerialError::UnexpectedEof)
    }
}

/// The message type of the welcome message.
pub const WELCOME_TYPE: u16 = 0x03;

/// A Blue Burst message: one the server interprets, or any other with its
/// type, flags and body.
#[derive(Clone, Debug)]
pub enum Message {
    Unknown(u16, u32, Vec<u8>),
    Welcome(u32, Welcome),
}

/// A message as plain values.
pub enum MessageView {
    Unknown(u16, u32, Seq<u8>),
    Welcome(u32, Seq<u8>, Seq<u8>),
}

/// The plain view of a message.
pub open spec fn message_view(m: Message) -> MessageView {
    match m {
        Message::Unknown(t, f, b) => MessageView::Unknown(t, f, b@),
        Message::Welcome(f, w) => MessageView::Welcome(f, w.0@, w.1@),
    }
}

/// The type, flags and body bytes of a message.
pub open spec fn message_parts(m: Message) -> (u16, u32, Seq<u8>) {
    match m {
        Message::Unknown(t, f, b) => (t, f, b@),
        Message::Welcome(f, w) => (WELCOME_TYPE, f, w.spec_serialize()),
    }
}

/// The body size that the header records: the body length, cut to sixteen
/// bits.
pub open spec fn recorded_size(body: Seq<u8>) -> u16 {
    (body.len() % 65536) as u16
}

/// The bytes of a message: the header (recorded size plus eight, type,
/// flags), then as many body bytes as the recorded size.
pub open spec fn frame(t: u16, f: u32, body: Seq<u8>) -> Seq<u8> {
    let size = recorded_size(body);
    le16((size + 8) as u16) + le16(t) + le32(f) + body.take(size as int)
}

/// What reading a message from `src` gives: an error when the header is
/// cut short or the body is shorter than the header says, else a message of
/// the header's type and flags with the body, and the bytes taken.
pub open spec fn parse_message(src: Seq<u8>) -> Result<(MessageView, nat), SerialError> {
    if src.len() < 8 {
        Err(SerialError::UnexpectedEof)
    } else {
        let size = get_le16(src, 0);
        let t = get_le16(src, 2);
        let f = get_le32(src, 4);
        if src.len() - 8 < size - 8 {
            Err(SerialError::MissingBytes((size - 8) as u16))
        } else {
            Ok((MessageView::Unknown(t, f, src.subrange(8, size as int)), size as nat))
        }
    }
}

/// Appends the first `n` bytes of `b`.
fn put_prefix(out: &mut Vec<u8>, b: &Vec<u8>, n: usize)
    requires
        n <= b@.len(),
    ensures
        final(out)@ == old(out)@ + b@.take(n as int),
{
    let mut i: usize = 0;
    let ghost start = out@;
    while i < n
        invariant
            n <= b@.len(),
            i <= n,
            out@ == start + b@.take(i as int),
        decreases n - i,
    {
        out.push(b[i]);
        assert(b@.take(i + 1) =~= b@.take(i as int).push(b@[i as int]));
        i = i + 1;
    }
}

impl Serial for Message {
    /// The recorded size plus eight fits into the size field.
    open spec fn serialize_ok(&self) -> bool {
        recorded_size(message_parts(*self).2) + 8 <= 0xFFFF
    }

    open spec fn spec_serialize(&self) -> Seq<u8> {
        let (t, f, body) = message_parts(*self);
        frame(t, f, body)
    }

    /// A message whose header is complete is neither a welcome message
    /// (which is not read) nor one recording a size below the header's.
    open spec fn deserialize_ok(src: Seq<u8>) -> bool {
        src.len() >= 8 ==> get_le16(src, 2) != WELCOME_TYPE && get_le16(src, 0) >= 8
    }

    open spec fn deserialized(src: Seq<u8>, r: Result<(Self, usize), SerialError>) -> bool {
        match parse_message(src) {
            Err(e) => r == Err::<(Self, usize), SerialError>(e),
            Ok((v, n)) => r matches Ok((m, k)) && message_view(m) == v && k == n,
        }
    }

    fn serialize(&self) -> (r: Vec<u8>) {
        let (t, f, body): (u16, u32, Vec<u8>) = match self {
            Message::Unknown(a, fl, bytes) => (*a, *fl, bytes.clone()),
            Message::Welcome(fl, w) => (WELCOME_TYPE, *fl, w.serialize()),
        };
        assert(body@ == message_parts(*self).2);
        let size: u16 = (body.len() % 65536) as u16;
        let mut out: Vec<u8> = Vec::new();
        put_u16_le(&mut out, size + 8);
        put_u16_le(&mut out, t);
        put_u32_le(&mut out, f);
        put_prefix(&mut out, &body, size as usize);
        assert(out@ =~= frame(t, f, body@));
        out
    }

    fn deserialize(src: &[u8]) -> (r: Result<(Self, usize), SerialError>) {
        if src.len() < 8 {
            return Err(SerialError::UnexpectedEof);
        }
        let size = read_u16_le(src);
        let msg_type = read_u16_le(slice_from(src, 2));
        let flags = read_u32_le(slice_from(src, 4));
        let want: usize = (size - 8) as usize;
        if src.len() - 8 < want {
            return Err(SerialError::MissingBytes(size - 8));
        }
        let mut buf: Vec<u8> = Vec::new();
        let mut i: usize = 0;
        while i < want
            invariant
                i <= want,
                8 + want <= src@.len(),
                buf@ == src@.subrange(8, 8 + i as int),
            decreases want - i,
        {
            buf.push(src[8 + i]);
            assert(src@.subrange(8, 8 + i + 1) =~= src@.subrange(8, 8 + i as int).push(src@[8 + i as int]));
            i = i + 1;
        }
        Ok((Message::Unknown(msg_type, flags, buf), size as usize))
    }
}

/// The bytes of `s` from `start` on.
pub fn slice_from(s: &[u8], start: usize) -> (r: &[u8])
    requires
        start <= s@.len(),
    ensures
        r@ == s@.subrange(start as int, s@.len() as int),
{
    let (_, tail) = s.split_at(start);
    tail
}

/// A message that the server does not interpret, written and read back,
/// is the same message, and reading takes exactly the bytes written.
pub proof fn law_message_roundtrip(t: u16, f: u32, body: Seq<u8>)
    requires
        t != WELCOME_TYPE,
        body.len() + 8 <= 0xFFFF,
    ensures
        parse_message(frame(t, f, body)) == Ok::<(MessageView, nat), SerialError>(
            (MessageView::Unknown(t, f, body), (body.len() + 8) as nat),
        ),
{
    let s = frame(t, f, body);
    let size = recorded_size(body);
    assert(size == body.len());
    assert(body.take(size as int) =~= body);
    lemma_le16_roundtrip((size + 8) as u16);
    lemma_le16_roundtrip(t);
    lemma_le32_roundtrip(f);
    let h1 = le16((size + 8) as u16);
    let h2 = le16(t);
    let h3 = le32(f);
    assert(s == h1 + h2 + h3 + body);
    assert(get_le16(s, 0) == get_le16(h1, 0));
    assert(get_le16(s, 2) == get_le16(h2, 0));
    assert(get_le32(s, 4) == get_le32(h3, 0));
    assert(s.subrange(8, size + 8) =~= body);
}

} // verus!
