//! Comparison of secret byte strings.

use vstd::prelude::*;

verus! {

/// Folding one more pair of bytes into the running difference keeps it zero
/// exactly when it was zero before and the two bytes agree.
proof fn lemma_fold_difference(acc: u8, x: u8, y: u8)
    ensures
        (acc | (x ^ y)) == 0 <==> (acc == 0 && x == y),
{
    assert((acc | (x ^ y)) == 0 <==> (acc == 0 && x == y)) by (bit_vector);
}

/// Tells whether two byte strings are equal.
///
/// When the lengths agree, every pair of bytes is visited and folded into one
/// accumulator, so the running time does not depend on where the first
/// difference lies. Only the lengths, which are not secret, are compared
/// early.
pub fn constant_time_eq(a: &[u8], b: &[u8]) -> (equal: bool)
    ensures
        equal == (a@ == b@),
{
    if a.len() != b.len() {
        return false;
    }
    let mut acc: u8 = 0;
    let mut i: usize = 0;
    assert(a@.take(0) =~= b@.take(0));
    while i < a.len()
        invariant
            a@.len() == b@.len(),
            i <= a@.len(),
            acc == 0 <==> a@.take(i as int) == b@.take(i as int),
        decreases a@.len() - i,
    {
        let x: u8 = a[i];
        let y: u8 = b[i];
        proof {
            lemma_fold_difference(acc, x, y);
            let next = i as int + 1;
            if a@.take(next) == b@.take(next) {
                assert(a@.take(i as int) == a@.take(next).take(i as int));
                assert(b@.take(i as int) == b@.take(next).take(i as int));
                assert(a@[i as int] == a@.take(next)[i as int]);
                assert(b@[i as int] == b@.take(next)[i as int]);
            }
            if a@.take(i as int) == b@.take(i as int) && x == y {
                assert(a@.take(next) == a@.take(i as int).push(x));
                assert(b@.take(next) == b@.take(i as int).push(y));
            }
        }
        acc = acc | (x ^ y);
        i = i + 1;
    }
    proof {
        assert(a@.take(a@.len() as int) == a@);
        assert(b@.take(b@.len() as int) == b@);
    }
    acc == 0
}

} // verus!
