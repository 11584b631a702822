//! Compute Stage: reduce an integer batch to a single sum.
//!
//! The overflow policy is explicit: 64-bit signed wrapping addition,
//! folded left to right over the batch.

use vstd::prelude::*;

verus! {

/// The sum of a batch under the declared overflow policy: 64-bit signed
/// wrapping addition, folded left to right, with identity 0.
pub open spec fn sum_spec(s: Seq<i64>) -> i64
    decreases s.len(),
{
    if s.len() == 0 {
        0i64
    } else {
        vstd::wrapping::i64_specs::wrapping_add(sum_spec(s.drop_last()), s.last())
    }
}

/// The sum of the empty batch is 0.
pub proof fn lemma_sum_empty()
    ensures
        sum_spec(Seq::<i64>::empty()) == 0i64,
{
}

/// Folding one more element wraps it onto the running sum.
proof fn lemma_sum_take_step(s: Seq<i64>, i: int)
    requires
        0 <= i < s.len(),
    ensures
        sum_spec(s.take(i + 1)) == vstd::wrapping::i64_specs::wrapping_add(
            sum_spec(s.take(i)),
            s[i],
        ),
{
    assert(s.take(i + 1).drop_last() =~= s.take(i));
    assert(s.take(i + 1).last() == s[i]);
}

/// The true, unbounded arithmetic sum of a batch.
pub open spec fn int_sum(s: Seq<i64>) -> int
    decreases s.len(),
{
    if s.len() == 0 {
        0
    } else {
        int_sum(s.drop_last()) + s.last()
    }
}

/// The declared overflow policy is faithful to arithmetic: for every
/// batch the wrapped sum is congruent to the true arithmetic sum
/// modulo 2^64.
pub proof fn lemma_sum_congruent_mod(s: Seq<i64>)
    ensures
        (sum_spec(s) as int - int_sum(s)) % 0x1_0000_0000_0000_0000 == 0,
    decreases s.len(),
{
    let m: int = 0x1_0000_0000_0000_0000;
    if s.len() == 0 {
        vstd::arithmetic::div_mod::lemma_fundamental_div_mod_converse_mod(0, m, 0, 0);
    } else {
        lemma_sum_congruent_mod(s.drop_last());
        let a = sum_spec(s.drop_last()) as int;
        let i = int_sum(s.drop_last());
        let b = s.last() as int;
        let w = sum_spec(s) as int;
        assert(w == a + b || w == a + b - m || w == a + b + m);
        vstd::arithmetic::div_mod::lemma_fundamental_div_mod(a - i, m);
        let q = (a - i) / m;
        if w == a + b {
            vstd::arithmetic::div_mod::lemma_fundamental_div_mod_converse_mod(
                w - (i + b),
                m,
                q,
                0,
            );
        } else if w == a + b - m {
            vstd::arithmetic::div_mod::lemma_fundamental_div_mod_converse_mod(
                w - (i + b),
                m,
                q - 1,
                0,
            );
        } else {
            vstd::arithmetic::div_mod::lemma_fundamental_div_mod_converse_mod(
                w - (i + b),
                m,
                q + 1,
                0,
            );
        }
    }
}

/// Whenever the true arithmetic sum of a batch fits in a signed 64-bit
/// integer, the wrapped sum is exactly that sum.
pub proof fn lemma_sum_exact_when_fits(s: Seq<i64>)
    requires
        i64::MIN <= int_sum(s) <= i64::MAX,
    ensures
        sum_spec(s) as int == int_sum(s),
{
    lemma_sum_congruent_mod(s);
    let m: int = 0x1_0000_0000_0000_0000;
    let d = sum_spec(s) as int - int_sum(s);
    vstd::arithmetic::div_mod::lemma_fundamental_div_mod(d, m);
    let q = d / m;
    assert(d == m * q);
    assert(q == 0);
}

/// Compute Stage: the sum of `nums` under 64-bit signed wrapping addition.
pub fn sum_batch(nums: &Vec<i64>) -> (sum: i64)
    ensures
        sum == sum_spec(nums@),
{
    let mut sum: i64 = 0;
    let mut i: usize = 0;
    while i < nums.len()
        invariant
            i <= nums.len(),
            sum == sum_spec(nums@.take(i as int)),
        decreases nums.len() - i,
    {
        proof {
            lemma_sum_take_step(nums@, i as int);
        }
        sum = sum.wrapping_add(nums[i]);
        i = i + 1;
    }
    proof {
        assert(nums@.take(nums@.len() as int) =~= nums@);
    }
    sum
}

} // verus!
