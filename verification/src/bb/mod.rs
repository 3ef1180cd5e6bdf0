//! The Blue Burst key table and the keys a new connection is welcomed
//! with.

use vstd::prelude::*;

use crate::message::bb::slice_from;
use crate::message::bytes::{get_le32, read_u32_le};
use crate::util::random_u8;

verus! {

/// Reads a key table: the data as little-endian `u32` words, as many as
/// there are whole groups of four bytes; trailing bytes are ignored.
pub fn read_key_table(data: &[u8]) -> (r: Vec<u32>)
    ensures
        r@.len() == data@.len() / 4,
        forall|i: int| 0 <= i < r@.len() ==> #[trigger] r@[i] == get_le32(data@, 4 * i),
{
    let mut key_table: Vec<u32> = Vec::new();
    let mut pos: usize = 0;
    while data.len() - pos >= 4
        invariant
            pos <= data@.len(),
            pos == 4 * key_table@.len(),
            forall|i: int| 0 <= i < key_table@.len() ==> #[trigger] key_table@[i] == get_le32(data@, 4 * i),
        decreases data@.len() - pos,
    {
        let word = read_u32_le(slice_from(data, pos));
        key_table.push(word);
        pos = pos + 4;
    }
    key_table
}

/// The length of each welcome key.
pub const WELCOME_KEY_LEN: usize = 48;

/// `n` copies of `b`.
fn repeated(b: u8, n: usize) -> (r: Vec<u8>)
    ensures
        r@ == Seq::new(n as nat, |_i: int| b),
{
    let mut v: Vec<u8> = Vec::new();
    let mut i: usize = 0;
    while i < n
        invariant
            i <= n,
            v@ == Seq::new(i as nat, |_i: int| b),
        decreases n - i,
    {
        v.push(b);
        assert(v@ =~= Seq::new((i + 1) as nat, |_i: int| b));
        i = i + 1;
    }
    v
}

/// The server and client keys a new Blue Burst connection is welcomed
/// with: each 48 copies of one random byte.
pub fn bb_welcome_keys() -> (r: (Vec<u8>, Vec<u8>))
    ensures
        r.0@.len() == WELCOME_KEY_LEN,
        r.1@.len() == WELCOME_KEY_LEN,
        forall|i: int| 0 <= i < WELCOME_KEY_LEN ==> #[trigger] r.0@[i] == r.0@[0] && r.1@[i] == r.1@[0],
{
    let s = random_u8();
    let c = random_u8();
    let sk = repeated(s, WELCOME_KEY_LEN);
    let ck = repeated(c, WELCOME_KEY_LEN);
    (sk, ck)
}

} // verus!
