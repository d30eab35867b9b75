//! The Morse index of a critical point.
use vstd::prelude::*;
use crate::scalar::Scalar;

verus! {

/// How many of the scalars are strictly below zero.
pub open spec fn count_negative(values: Seq<Scalar>) -> nat
    decreases values.len(),
{
    if values.len() == 0 {
        0
    } else {
        count_negative(values.drop_last()) + if values.last().negative() {
            1nat
        } else {
            0nat
        }
    }
}

/// The Morse index of a critical point whose Hessian has the eigenvalues
/// `eigs`: the number of them that are strictly below zero. It is 0 at a
/// minimum, 3 at a maximum, and 1 or 2 at a saddle.
pub fn morse_index(eigs: [Scalar; 3]) -> (index: u8)
    ensures
        index == count_negative(eigs@),
        index <= 3,
{
    let mut index: u8 = 0;
    let mut i: usize = 0;
    while i < 3
        invariant
            i <= 3,
            index == count_negative(eigs@.take(i as int)),
            index <= i,
        decreases 3 - i,
    {
        assert(eigs@.take(i + 1).drop_last() =~= eigs@.take(i as int));
        if eigs[i].is_negative() {
            index += 1;
        }
        i += 1;
    }
    assert(eigs@.take(3) =~= eigs@);
    index
}

} // verus!
