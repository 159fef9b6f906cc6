//! The summation utility: a left-to-right IEEE-754 binary64 fold.

use vstd::prelude::*;
use crate::ieee::{POS_ZERO_BITS, NEG_ZERO_BITS, POS_INF_BITS, NEG_INF_BITS, add_bits, is_nan_bits, ieee_add};

verus! {

/// The left-to-right fold of IEEE-754 binary64 addition over `s`, starting
/// from +0.0: `(((0.0 + s[0]) + s[1]) + ...)`, everything as bit patterns.
pub open spec fn sum_bits(s: Seq<u64>) -> u64
    decreases s.len(),
{
    if s.len() == 0 {
        POS_ZERO_BITS
    } else {
        add_bits(sum_bits(s.drop_last()), s.last())
    }
}

/// Whether some element of `s` encodes a NaN.
pub open spec fn has_nan(s: Seq<u64>) -> bool {
    exists|i: int| 0 <= i < s.len() && is_nan_bits(s[i])
}

/// Sums a sequence of doubles, each given as its binary64 bit pattern, in
/// strict left-to-right order with an accumulator starting at +0.0, and
/// returns the bit pattern of the result.
///
/// An empty sequence yields +0.0; a NaN anywhere yields a NaN; infinities of
/// both signs in one sequence yield a NaN; a single value that is not a NaN
/// comes back unchanged, except that a lone -0.0 sums to +0.0.
pub fn sum(numbers: &Vec<u64>) -> (r: u64)
    ensures
        r == sum_bits(numbers@),
        numbers@.len() == 0 ==> r == POS_ZERO_BITS,
        has_nan(numbers@) ==> is_nan_bits(r),
        numbers@.contains(POS_INF_BITS) && numbers@.contains(NEG_INF_BITS) ==> is_nan_bits(r),
        (numbers@.len() == 1 && !is_nan_bits(numbers@[0]) && numbers@[0] != NEG_ZERO_BITS) ==> r
            == numbers@[0],
        (numbers@.len() == 1 && numbers@[0] == NEG_ZERO_BITS) ==> r == POS_ZERO_BITS,
{
    let ghost s = numbers@;
    let n = numbers.len();
    let mut acc: u64 = POS_ZERO_BITS;
    let mut i: usize = 0;
    while i < n
        invariant
            n == s.len(),
            s == numbers@,
            i <= n,
            acc == sum_bits(s.take(i as int)),
            has_nan(s.take(i as int)) ==> is_nan_bits(acc),
            s.take(i as int).contains(POS_INF_BITS) ==> acc == POS_INF_BITS || is_nan_bits(acc),
            s.take(i as int).contains(NEG_INF_BITS) ==> acc == NEG_INF_BITS || is_nan_bits(acc),
            (n == 1 && i == 1 && !is_nan_bits(s[0]) && s[0] != NEG_ZERO_BITS) ==> acc == s[0],
            (n == 1 && i == 1 && s[0] == NEG_ZERO_BITS) ==> acc == POS_ZERO_BITS,
        decreases n - i,
    {
        let ghost acc_prev = acc;
        let ghost t_old = s.take(i as int);
        let x = numbers[i];
        acc = ieee_add(acc, x);
        i = i + 1;
        proof {
            let t_new = s.take(i as int);
            assert(t_new.drop_last() =~= t_old);
            assert(t_new.last() == s[i - 1]);
            if has_nan(t_new) {
                let j = choose|j: int| 0 <= j < t_new.len() && is_nan_bits(t_new[j]);
                if j < i - 1 {
                    assert(is_nan_bits(t_old[j]));
                }
            }
            if t_new.contains(POS_INF_BITS) {
                let j = choose|j: int| 0 <= j < t_new.len() && t_new[j] == POS_INF_BITS;
                if j < i - 1 {
                    assert(t_old[j] == POS_INF_BITS);
                    assert(t_old.contains(POS_INF_BITS));
                }
            }
            if t_new.contains(NEG_INF_BITS) {
                let j = choose|j: int| 0 <= j < t_new.len() && t_new[j] == NEG_INF_BITS;
                if j < i - 1 {
                    assert(t_old[j] == NEG_INF_BITS);
                    assert(t_old.contains(NEG_INF_BITS));
                }
            }
        }
    }
    proof {
        assert(s.take(n as int) =~= s);
    }
    acc
}

} // verus!
