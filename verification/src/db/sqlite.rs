//! Conversions for the SQLite backend, which stores booleans as integers.

use vstd::prelude::*;

verus! {

/// The integer stored for a boolean: 1 or 0.
pub open spec fn stored_bool(a: bool) -> i64 {
    if a {
        1
    } else {
        0
    }
}

/// The boolean a stored integer reads as: anything but 0 is true.
pub open spec fn read_bool(a: i64) -> bool {
    a != 0
}

/// A boolean as the integer stored for it.
pub fn b2i(a: bool) -> (r: i64)
    ensures
        r == stored_bool(a),
{
    match a {
        true => 1,
        false => 0,
    }
}

/// A stored integer as a boolean.
pub fn i2b(a: i64) -> (r: bool)
    ensures
        r == read_bool(a),
{
    match a {
        0 => false,
        _ => true,
    }
}

/// A boolean stored and read back is the same boolean.
pub proof fn law_bool_roundtrip(a: bool)
    ensures
        read_bool(stored_bool(a)) == a,
{
}

} // verus!
