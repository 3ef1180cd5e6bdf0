//! Patch-server messages: a four-byte header (total size, message type,
//! both little-endian 16-bit) followed by the body.

use vstd::prelude::*;

use encoding::{EncoderTrap, Encoding};
use encoding::all::UTF_16LE;

use crate::message::bb::{Serial, SerialError, slice_from};
use crate::message::bytes::{
    le16, le32, be16, be32, get_le16, get_le32, get_be16, get_be32, read_u16_le, read_u32_le, read_u16_be,
    read_u32_be, put_u16_le, put_u32_le, put_u16_be, put_u32_be, put_bytes, lemma_le16_roundtrip,
    lemma_le32_roundtrip, lemma_be16_roundtrip, lemma_be32_roundtrip,
};

verus! {

/// A message header: the body length, the message type, and flags (which
/// the patch protocol does not carry).
#[derive(Clone, Copy, Debug, PartialEq, Eq, Structural)]
pub struct MsgHeader {
    pub len: u32,
    pub msg_type: u32,
    pub flags: u32,
}

/// The patch header format: `u16` total length (body plus four), `u16`
/// message type.
pub struct HdrSerializer;

/// The header bytes written for a body length and message type, each cut
/// to sixteen bits.
pub open spec fn patch_header_bytes(len: u32, msg_type: u32) -> Seq<u8> {
    le16(((len % 65536) + 4) as u16) + le16((msg_type % 65536) as u16)
}

/// What reading a header from `src` gives.
pub open spec fn parse_patch_header(src: Seq<u8>) -> Result<MsgHeader, SerialError> {
    if src.len() < 4 {
        Err(SerialError::UnexpectedEof)
    } else {
        Ok(MsgHeader { len: (get_le16(src, 0) - 4) as u32, msg_type: get_le16(src, 2) as u32, flags: 0 })
    }
}

impl HdrSerializer {
    /// Reads a header from the front of `src` (already decrypted). A total
    /// length below four is not a header.
    pub fn hdr_deserialize(src: &[u8]) -> (r: Result<MsgHeader, SerialError>)
        requires
            src@.len() >= 4 ==> get_le16(src@, 0) >= 4,
        ensures
            r == parse_patch_header(src@),
    {
        if src.len() < 4 {
            return Err(SerialError::UnexpectedEof);
        }
        let len = read_u16_le(src);
        let msg_type = read_u16_le(slice_from(src, 2));
        Ok(MsgHeader { len: len as u32 - 4, msg_type: msg_type as u32, flags: 0 })
    }

    /// The header bytes (before encryption) for `value`; the flags are not
    /// written.
    pub fn hdr_serialize(value: &MsgHeader) -> (r: Vec<u8>)
        requires
            (value.len % 65536) + 4 <= 0xFFFF,
        ensures
            r@ == patch_header_bytes(value.len, value.msg_type),
    {
        let mut out: Vec<u8> = Vec::new();
        let len = value.len;
        let msg_type = value.msg_type;
        assert(len as u16 == (len % 65536) as u16) by (bit_vector);
        assert(msg_type as u16 == (msg_type % 65536) as u16) by (bit_vector);
        put_u16_le(&mut out, value.len as u16 + 4);
        put_u16_le(&mut out, value.msg_type as u16);
        out
    }
}

/// A header written and read back gives the same length and type, and no
/// flags.
pub proof fn law_patch_header_roundtrip(len: u32, msg_type: u32)
    requires
        len + 4 <= 0xFFFF,
        msg_type <= 0xFFFF,
    ensures
        parse_patch_header(patch_header_bytes(len, msg_type)) == Ok::<MsgHeader, SerialError>(
            MsgHeader { len, msg_type, flags: 0 },
        ),
{
    let a = le16(((len % 65536) + 4) as u16);
    let b = le16((msg_type % 65536) as u16);
    lemma_le16_roundtrip(((len % 65536) + 4) as u16);
    lemma_le16_roundtrip((msg_type % 65536) as u16);
    let s = a + b;
    assert(get_le16(s, 0) == get_le16(a, 0));
    assert(get_le16(s, 2) == get_le16(b, 0));
}

/// The banner that opens the patch welcome message.
pub open spec fn patch_banner() -> Seq<u8> {
    seq![0x50u8, 0x61, 0x74, 0x63, 0x68, 0x20, 0x53, 0x65, 0x72, 0x76, 0x65, 0x72, 0x2e, 0x20, 0x43, 0x6f, 0x70, 0x79, 0x72, 0x69, 0x67, 0x68, 0x74, 0x20, 0x53, 0x6f, 0x6e, 0x69, 0x63, 0x54, 0x65, 0x61, 0x6d, 0x2c, 0x20, 0x4c, 0x54, 0x44, 0x2e, 0x20, 0x32, 0x30, 0x30, 0x31]
}

fn patch_banner_bytes() -> (r: Vec<u8>)
    ensures
        r@ == patch_banner(),
{
    let r = vec![0x50u8, 0x61, 0x74, 0x63, 0x68, 0x20, 0x53, 0x65, 0x72, 0x76, 0x65, 0x72, 0x2e, 0x20, 0x43, 0x6f, 0x70, 0x79, 0x72, 0x69, 0x67, 0x68, 0x74, 0x20, 0x53, 0x6f, 0x6e, 0x69, 0x63, 0x54, 0x65, 0x61, 0x6d, 0x2c, 0x20, 0x4c, 0x54, 0x44, 0x2e, 0x20, 0x32, 0x30, 0x30, 0x31];
    assert(r@ =~= patch_banner());
    r
}

/// The patch welcome message: the banner, twenty zero bytes, and the
/// server's and the client's cipher seeds.
#[derive(Clone, Copy, Debug, PartialEq, Eq, Structural)]
pub struct Welcome {
    pub server_vector: u32,
    pub client_vector: u32,
}

impl Welcome {
    /// The body length of a welcome message.
    pub fn serial_len(&self) -> (r: usize)
        ensures
            r == 72,
    {
        72
    }
}

/// What reading a welcome message from `src` gives: the first 64 bytes
/// are skipped (there must be 64), then the two seeds.
pub open spec fn parse_patch_welcome(src: Seq<u8>) -> Result<(Welcome, usize), SerialError> {
    if src.len() < 64 {
        Err(SerialError::ShortRead(src.len() as usize))
    } else if src.len() < 72 {
        Err(SerialError::UnexpectedEof)
    } else {
        Ok((Welcome { server_vector: get_le32(src, 64), client_vector: get_le32(src, 68) }, 72usize))
    }
}

impl Serial for Welcome {
    open spec fn serialize_ok(&self) -> bool {
        true
    }

    open spec fn spec_serialize(&self) -> Seq<u8> {
        patch_banner() + Seq::new(20, |_i: int| 0u8) + le32(self.server_vector) + le32(self.client_vector)
    }

    open spec fn deserialize_ok(src: Seq<u8>) -> bool {
        true
    }

    open spec fn deserialized(src: Seq<u8>, r: Result<(Self, usize), SerialError>) -> bool {
        r == parse_patch_welcome(src)
    }

    fn serialize(&self) -> (r: Vec<u8>) {
        let mut out = patch_banner_bytes();
        let zeros = [0u8; 20];
        put_bytes(&mut out, &zeros);
        put_u32_le(&mut out, self.server_vector);
        put_u32_le(&mut out, self.client_vector);
        proof {
            assert(zeros@ =~= Seq::new(20, |_i: int| 0u8));
        }
        out
    }

    fn deserialize(src: &[u8]) -> (r: Result<(Self, usize), SerialError>) {
        if src.len() < 64 {
            return Err(SerialError::ShortRead(src.len()));
        }
        if src.len() < 72 {
            return Err(SerialError::UnexpectedEof);
        }
        let server_vector = read_u32_le(slice_from(src, 64));
        let client_vector = read_u32_le(slice_from(src, 68));
        Ok((Welcome { server_vector, client_vector }, 72))
    }
}

/// A redirect to an IPv4 address (as a number, most significant byte
/// first on the wire) and port.
#[derive(Clone, Copy, Debug, PartialEq, Eq, Structural)]
pub struct Redirect {
    pub ip_addr: u32,
    pub port: u16,
}

impl Redirect {
    /// The body length of a redirect.
    pub fn serial_len(&self) -> (r: usize)
        ensures
            r == 8,
    {
        8
    }
}

/// What reading a redirect from `src` gives: the address and port, big
/// endian, then two bytes of padding that must be zero.
pub open spec fn parse_redirect(src: Seq<u8>) -> Result<(Redirect, usize), SerialError> {
    if src.len() < 8 {
        Err(SerialError::UnexpectedEof)
    } else if get_le16(src, 6) != 0 {
        Err(SerialError::BadPadding)
    } else {
        Ok((Redirect { ip_addr: get_be32(src, 0), port: get_be16(src, 4) }, 8usize))
    }
}

impl Serial for Redirect {
    open spec fn serialize_ok(&self) -> bool {
        true
    }

    open spec fn spec_serialize(&self) -> Seq<u8> {
        be32(self.ip_addr) + be16(self.port) + le16(0)
    }

    open spec fn deserialize_ok(src: Seq<u8>) -> bool {
        true
    }

    open spec fn deserialized(src: Seq<u8>, r: Result<(Self, usize), SerialError>) -> bool {
        r == parse_redirect(src)
    }

    fn serialize(&self) -> (r: Vec<u8>) {
        let mut out: Vec<u8> = Vec::new();
        put_u32_be(&mut out, self.ip_addr);
        put_u16_be(&mut out, self.port);
        put_u16_le(&mut out, 0);
        out
    }

    fn deserialize(src: &[u8]) -> (r: Result<(Self, usize), SerialError>) {
        if src.len() < 8 {
            return Err(SerialError::UnexpectedEof);
        }
        let ip_addr = read_u32_be(src);
        let port = read_u16_be(slice_from(src, 4));
        if read_u16_le(slice_from(src, 6)) != 0 {
            return Err(SerialError::BadPadding);
        }
        Ok((Redirect { ip_addr, port }, 8))
    }
}

/// A welcome message written and read back is the same message.
pub proof fn law_patch_welcome_roundtrip(w: Welcome)
    ensures
        parse_patch_welcome(w.spec_serialize()) == Ok::<(Welcome, usize), SerialError>((w, 72usize)),
{
    let s = w.spec_serialize();
    let head = patch_banner() + Seq::new(20, |_i: int| 0u8);
    assert(head.len() == 64);
    lemma_le32_roundtrip(w.server_vector);
    lemma_le32_roundtrip(w.client_vector);
    assert(s == head + le32(w.server_vector) + le32(w.client_vector));
    assert(get_le32(s, 64) == get_le32(le32(w.server_vector), 0));
    assert(get_le32(s, 68) == get_le32(le32(w.client_vector), 0));
}

/// A redirect written and read back is the same redirect.
pub proof fn law_redirect_roundtrip(r: Redirect)
    ensures
        parse_redirect(r.spec_serialize()) == Ok::<(Redirect, usize), SerialError>((r, 8usize)),
{
    let s = r.spec_serialize();
    lemma_be32_roundtrip(r.ip_addr);
    lemma_be16_roundtrip(r.port);
    lemma_le16_roundtrip(0);
    assert(get_be32(s, 0) == get_be32(be32(r.ip_addr), 0));
    assert(get_be16(s, 4) == get_be16(be16(r.port), 0));
    assert(get_le16(s, 6) == get_le16(le16(0), 0));
}

/// The UTF-16LE code units of one character, least significant byte
/// first: one unit for a character below U+10000, else a surrogate pair.
pub open spec fn utf16le_char(c: char) -> Seq<u8> {
    let v = c as u32;
    if v < 0x10000 {
        seq![(v % 256) as u8, (v / 256) as u8]
    } else {
        let w = (v - 0x10000) as u32;
        seq![((w / 1024) % 256) as u8, (0xD8 + w / 262144) as u8, (w % 256) as u8, (0xDC + (w / 256) % 4) as u8]
    }
}

/// The UTF-16LE encoding of a string.
pub open spec fn utf16le(s: Seq<char>) -> Seq<u8>
    decreases s.len(),
{
    if s.len() == 0 {
        Seq::empty()
    } else {
        utf16le(s.drop_last()) + utf16le_char(s.last())
    }
}

/// `encoding`'s UTF-16LE encoder with `EncoderTrap::Replace`. Its encoder
/// writes every character, one code unit below U+10000 and a surrogate pair
/// above, least significant byte first, and reports no error.
#[verifier::external_body]
fn encode_utf16le(s: &str) -> (r: Option<Vec<u8>>)
    ensures
        r is Some,
        r matches Some(v) ==> v@ == utf16le(s@),
{
    UTF_16LE.encode(s, EncoderTrap::Replace).ok()
}

/// A UTF-16LE encoding has an even length.
pub proof fn lemma_utf16le_even(s: Seq<char>)
    ensures
        utf16le(s).len() % 2 == 0,
    decreases s.len(),
{
    if s.len() > 0 {
        lemma_utf16le_even(s.drop_last());
    }
}

/// The message of the day, sent as UTF-16LE.
#[derive(Clone, Debug)]
pub struct Motd {
    pub message: String,
}

impl Motd {
    /// The body length: the encoded length, rounded up to an even number
    /// for the cipher.
    pub fn serial_len(&self) -> (r: usize)
        ensures
            r == utf16le(self.message@).len() + utf16le(self.message@).len() % 2,
    {
        proof {
            lemma_utf16le_even(self.message@);
        }
        match encode_utf16le(self.message.as_str()) {
            Some(enc) => {
                if enc.len() % 2 > 0 {
                    enc.len() + 1
                } else {
                    enc.len()
                }
            },
            None => 0,
        }
    }

    /// The body: the message in UTF-16LE.
    pub fn serialize(&self) -> (r: Vec<u8>)
        ensures
            r@ == utf16le(self.message@),
    {
        match encode_utf16le(self.message.as_str()) {
            Some(enc) => enc,
            None => Vec::new(),
        }
    }
}

} // verus!
