//! Little- and big-endian integers in byte buffers, through `byteorder`.

use vstd::prelude::*;

use byteorder::{BigEndian, ByteOrder, LittleEndian};

verus! {

/// The two bytes of `n`, least significant first.
pub open spec fn le16(n: u16) -> Seq<u8> {
    seq![(n % 256) as u8, (n / 256) as u8]
}

/// The four bytes of `n`, least significant first.
pub open spec fn le32(n: u32) -> Seq<u8> {
    seq![(n % 256) as u8, ((n / 256) % 256) as u8, ((n / 65536) % 256) as u8, (n / 16777216) as u8]
}

/// The two bytes of `n`, most significant first.
pub open spec fn be16(n: u16) -> Seq<u8> {
    seq![(n / 256) as u8, (n % 256) as u8]
}

/// The four bytes of `n`, most significant first.
pub open spec fn be32(n: u32) -> Seq<u8> {
    seq![(n / 16777216) as u8, ((n / 65536) % 256) as u8, ((n / 256) % 256) as u8, (n % 256) as u8]
}

/// The little-endian `u16` at `at`.
pub open spec fn get_le16(s: Seq<u8>, at: int) -> u16 {
    (s[at] + 256 * s[at + 1]) as u16
}

/// The little-endian `u32` at `at`.
pub open spec fn get_le32(s: Seq<u8>, at: int) -> u32 {
    (s[at] + 256 * s[at + 1] + 65536 * s[at + 2] + 16777216 * s[at + 3]) as u32
}

/// The big-endian `u16` at `at`.
pub open spec fn get_be16(s: Seq<u8>, at: int) -> u16 {
    (256 * s[at] + s[at + 1]) as u16
}

/// The big-endian `u32` at `at`.
pub open spec fn get_be32(s: Seq<u8>, at: int) -> u32 {
    (16777216 * s[at] + 65536 * s[at + 1] + 256 * s[at + 2] + s[at + 3]) as u32
}

/// `byteorder`'s `LittleEndian::read_u16`: the first two bytes, least
/// significant first. It panics on fewer than two bytes.
#[verifier::external_body]
pub(crate) fn read_u16_le(buf: &[u8]) -> (r: u16)
    requires
        buf@.len() >= 2,
    ensures
        r == get_le16(buf@, 0),
{
    LittleEndian::read_u16(buf)
}

/// `byteorder`'s `LittleEndian::read_u32`: the first four bytes, least
/// significant first. It panics on fewer than four bytes.
#[verifier::external_body]
pub(crate) fn read_u32_le(buf: &[u8]) -> (r: u32)
    requires
        buf@.len() >= 4,
    ensures
        r == get_le32(buf@, 0),
{
    LittleEndian::read_u32(buf)
}

/// `byteorder`'s `BigEndian::read_u16`: the first two bytes, most
/// significant first. It panics on fewer than two bytes.
#[verifier::external_body]
pub(crate) fn read_u16_be(buf: &[u8]) -> (r: u16)
    requires
        buf@.len() >= 2,
    ensures
        r == get_be16(buf@, 0),
{
    BigEndian::read_u16(buf)
}

/// `byteorder`'s `BigEndian::read_u32`: the first four bytes, most
/// significant first. It panics on fewer than four bytes.
#[verifier::external_body]
pub(crate) fn read_u32_be(buf: &[u8]) -> (r: u32)
    requires
        buf@.len() >= 4,
    ensures
        r == get_be32(buf@, 0),
{
    BigEndian::read_u32(buf)
}

/// `byteorder`'s `LittleEndian::write_u16` into a two-byte buffer.
#[verifier::external_body]
pub(crate) fn u16_le_bytes(n: u16) -> (r: [u8; 2])
    ensures
        r@ == le16(n),
{
    let mut b = [0u8; 2];
    LittleEndian::write_u16(&mut b, n);
    b
}

/// `byteorder`'s `LittleEndian::write_u32` into a four-byte buffer.
#[verifier::external_body]
pub(crate) fn u32_le_bytes(n: u32) -> (r: [u8; 4])
    ensures
        r@ == le32(n),
{
    let mut b = [0u8; 4];
    LittleEndian::write_u32(&mut b, n);
    b
}

/// `byteorder`'s `BigEndian::write_u16` into a two-byte buffer.
#[verifier::external_body]
pub(crate) fn u16_be_bytes(n: u16) -> (r: [u8; 2])
    ensures
        r@ == be16(n),
{
    let mut b = [0u8; 2];
    BigEndian::write_u16(&mut b, n);
    b
}

/// `byteorder`'s `BigEndian::write_u32` into a four-byte buffer.
#[verifier::external_body]
pub(crate) fn u32_be_bytes(n: u32) -> (r: [u8; 4])
    ensures
        r@ == be32(n),
{
    let mut b = [0u8; 4];
    BigEndian::write_u32(&mut b, n);
    b
}

/// Appends the bytes of `b` to `out`.
pub fn put_bytes(out: &mut Vec<u8>, b: &[u8])
    ensures
        final(out)@ == old(out)@ + b@,
{
    let n = b.len();
    let mut i: usize = 0;
    let ghost start = out@;
    while i < n
        invariant
            n == b@.len(),
            i <= n,
            out@ == start + b@.take(i as int),
        decreases n - i,
    {
        out.push(b[i]);
        assert(b@.take(i + 1) =~= b@.take(i as int).push(b@[i as int]));
        i = i + 1;
    }
    assert(b@.take(n as int) =~= b@);
}

/// Appends `n`'s little-endian bytes.
pub fn put_u16_le(out: &mut Vec<u8>, n: u16)
    ensures
        final(out)@ == old(out)@ + le16(n),
{
    let b = u16_le_bytes(n);
    put_bytes(out, &b);
}

/// Appends `n`'s little-endian bytes.
pub fn put_u32_le(out: &mut Vec<u8>, n: u32)
    ensures
        final(out)@ == old(out)@ + le32(n),
{
    let b = u32_le_bytes(n);
    put_bytes(out, &b);
}

/// Appends `n`'s big-endian bytes.
pub fn put_u16_be(out: &mut Vec<u8>, n: u16)
    ensures
        final(out)@ == old(out)@ + be16(n),
{
    let b = u16_be_bytes(n);
    put_bytes(out, &b);
}

/// Appends `n`'s big-endian bytes.
pub fn put_u32_be(out: &mut Vec<u8>, n: u32)
    ensures
        final(out)@ == old(out)@ + be32(n),
{
    let b = u32_be_bytes(n);
    put_bytes(out, &b);
}

/// Reading back written bytes gives the number written.
pub proof fn lemma_le16_roundtrip(n: u16)
    ensures
        get_le16(le16(n), 0) == n,
{
}

/// Reading back written bytes gives the number written.
pub proof fn lemma_le32_roundtrip(n: u32)
    ensures
        get_le32(le32(n), 0) == n,
{
    assert(le32(n)[0] + 256 * le32(n)[1] + 65536 * le32(n)[2] + 16777216 * le32(n)[3] == n) by (nonlinear_arith);
}

/// Reading back written bytes gives the number written.
pub proof fn lemma_be16_roundtrip(n: u16)
    ensures
        get_be16(be16(n), 0) == n,
{
}

/// Reading back written bytes gives the number written.
pub proof fn lemma_be32_roundtrip(n: u32)
    ensures
        get_be32(be32(n), 0) == n,
{
    assert(16777216 * be32(n)[0] + 65536 * be32(n)[1] + 256 * be32(n)[2] + be32(n)[3] == n) by (nonlinear_arith);
}

} // verus!
