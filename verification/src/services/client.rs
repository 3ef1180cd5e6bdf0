//! Client stream helpers.

use vstd::prelude::*;

verus! {

/// `value` rounded up to a multiple of `multiple`.
pub fn padded(value: usize, multiple: usize) -> (r: usize)
    requires
        multiple > 0,
        value % multiple != 0 ==> value + (multiple - value % multiple) <= usize::MAX,
    ensures
        value % multiple == 0 ==> r == value,
        value % multiple != 0 ==> r == value + (multiple - value % multiple),
        r % multiple == 0,
        value <= r < value + multiple,
{
    if value % multiple != 0 {
        let r = value + (multiple - value % multiple);
        assert(r % multiple == 0) by (nonlinear_arith)
            requires
                multiple > 0,
                r == value + (multiple - value % multiple),
        {
            vstd::arithmetic::div_mod::lemma_fundamental_div_mod(value as int, multiple as int);
            vstd::arithmetic::div_mod::lemma_mod_multiples_basic((value / multiple + 1) as int, multiple as int);
        }
        r
    } else {
        value
    }
}

} // verus!
