//! Partial-fill accounting: percentage buckets, tolerance, and the
//! fill-validity policy.
//!
//! An order split into `N` parts is filled against cumulative targets
//! derived from a percentage bucket per index:
//! `target(i) = floor(total * floor((i+1)*100 / N) / 100)`.
//!
//! The validity policy compares the slice a fill would pay — the cumulative
//! target for its index minus what is already filled — against the expected
//! marginal slice for that index (the cumulative target minus the previous
//! one), within a one-percent tolerance of the marginal slice.  The
//! sequencing check is direct: a fill's index must equal the number of
//! indices already used, so the first fill is index 0 and every later fill
//! is the previous index plus one.  A sentinel in the last-validated field
//! could not distinguish "no fills yet" from "index 0 validated", and the
//! tolerance band alone cannot carry the ordering when rounding makes
//! neighbouring targets coincide.

use vstd::arithmetic::div_mod::lemma_div_is_ordered;
use vstd::arithmetic::div_mod::lemma_div_nonincreasing;
use vstd::arithmetic::div_mod::lemma_div_multiples_vanish;
use vstd::arithmetic::div_mod::lemma_div_pos_is_pos;
use vstd::arithmetic::div_mod::lemma_fundamental_div_mod;
use vstd::arithmetic::div_mod::lemma_mod_division_less_than_divisor;
use vstd::arithmetic::mul::lemma_mul_by_zero_is_zero;
use vstd::arithmetic::mul::lemma_mul_inequality;
use vstd::arithmetic::mul::lemma_mul_is_commutative;
use vstd::arithmetic::mul::lemma_mul_left_inequality;
use vstd::arithmetic::mul::lemma_mul_nonnegative;
use vstd::prelude::*;

verus! {

/// Mutable partial-fill bookkeeping mirrored by the escrow.
#[derive(Clone, Debug)]
pub struct PartialFillInfo {
    /// Root of the Merkle tree committing one secret per index.
    pub merkle_root: [u8; 32],
    /// Total number of parts the order is split into.
    pub total_parts: u64,
    /// Indices that have already been used, each at most once; their count
    /// is the next index the sequencing policy accepts.
    pub used_indices: Vec<u64>,
    /// Last validated index, recorded for observers; the policy sequences
    /// fills by the used-index count, which a zero here cannot ambiguate.
    pub last_validated: u64,
}

impl PartialFillInfo {
    /// Internal consistency: at least one part, bookkeeping within range,
    /// and no index recorded twice.
    pub open spec fn wf(&self) -> bool {
        &&& self.total_parts > 0
        &&& self.last_validated < self.total_parts
        &&& forall|j: int|
            0 <= j < self.used_indices@.len() ==> self.used_indices@[j] < self.total_parts
        &&& self.used_indices@.no_duplicates()
    }
}

/// Percentage bucket for a fill index: `floor((index+1)*100 / parts)`.
pub open spec fn spec_bucket_percent(index: u64, parts: u64) -> int {
    ((index as int) + 1) * 100 / (parts as int)
}

/// Cumulative amount that should be filled once `index` has been validated.
pub open spec fn spec_cumulative_target(total: u128, index: u64, parts: u64) -> int {
    (total as int) * spec_bucket_percent(index, parts) / 100
}

/// Expected marginal slice for `index`: its cumulative target minus the
/// previous one.
pub open spec fn spec_marginal_target(total: u128, index: u64, parts: u64) -> int {
    if index == 0 {
        spec_cumulative_target(total, 0, parts)
    } else {
        spec_cumulative_target(total, index, parts) - spec_cumulative_target(
            total,
            ((index - 1) as u64),
            parts,
        )
    }
}

/// The slice this fill would pay — the cumulative target for `index` minus
/// the amount already filled (`total - remaining`) — lies within one percent
/// of the expected marginal slice for `index`.
pub open spec fn spec_amount_within_tolerance(
    total: u128,
    index: u64,
    parts: u64,
    remaining: u128,
) -> bool {
    let slice = spec_cumulative_target(total, index, parts) + remaining - total;
    let marginal = spec_marginal_target(total, index, parts);
    let tolerance = marginal / 100;
    marginal - tolerance <= slice <= marginal + tolerance
}

/// The full fill-validity policy for one index against the current state:
/// in range, unused, the next index in sequence, and paying a slice within
/// tolerance.
pub open spec fn spec_fill_valid(
    parts: u64,
    used: Seq<u64>,
    total: u128,
    index: u64,
    remaining: u128,
) -> bool {
    &&& index < parts
    &&& !used.contains(index)
    &&& index as nat == used.len()
    &&& spec_amount_within_tolerance(total, index, parts, remaining)
}

/// For a positive multiplier, staying under `cap` after multiplying is the
/// same as staying under `cap / a` before it.
pub proof fn lemma_mul_le_cap(x: int, a: int, cap: int)
    requires
        0 <= x,
        0 < a,
        0 <= cap,
    ensures
        x * a <= cap <==> x <= cap / a,
{
    lemma_fundamental_div_mod(cap, a);
    lemma_mod_division_less_than_divisor(cap, a);
    lemma_mul_is_commutative(x, a);
    lemma_mul_is_commutative(cap / a, a);
    if x <= cap / a {
        lemma_mul_inequality(x, cap / a, a);
    }
    if x * a <= cap {
        lemma_div_is_ordered(x * a, cap, a);
        lemma_div_multiples_vanish(x, a);
    }
}

/// The percentage bucket of an in-range index is between 0 and 100.
pub proof fn lemma_percent_bounds(index: u64, parts: u64)
    requires
        0 < parts,
        index < parts,
    ensures
        0 <= spec_bucket_percent(index, parts) <= 100,
{
    lemma_mul_inequality((index as int) + 1, parts as int, 100);
    lemma_div_is_ordered(((index as int) + 1) * 100, (parts as int) * 100, parts as int);
    lemma_div_multiples_vanish(100, parts as int);
    lemma_div_pos_is_pos(((index as int) + 1) * 100, parts as int);
}

/// Percentage buckets are monotone in the index.
pub proof fn lemma_percent_monotone(i: u64, j: u64, parts: u64)
    requires
        0 < parts,
        i <= j,
    ensures
        spec_bucket_percent(i, parts) <= spec_bucket_percent(j, parts),
{
    lemma_mul_inequality((i as int) + 1, (j as int) + 1, 100);
    lemma_div_is_ordered(((i as int) + 1) * 100, ((j as int) + 1) * 100, parts as int);
}

/// A cumulative target never exceeds the total amount.
pub proof fn lemma_cumulative_bounds(total: u128, index: u64, parts: u64)
    requires
        0 < parts,
        index < parts,
    ensures
        0 <= spec_cumulative_target(total, index, parts) <= total,
{
    lemma_percent_bounds(index, parts);
    let pct = spec_bucket_percent(index, parts);
    lemma_mul_nonnegative(total as int, pct);
    lemma_div_pos_is_pos((total as int) * pct, 100);
    if total > 0 {
        lemma_mul_left_inequality(total as int, pct, 100);
    } else {
        assert((total as int) * pct == 0 && (total as int) * 100 == 0);
    }
    lemma_div_is_ordered((total as int) * pct, (total as int) * 100, 100);
    lemma_div_multiples_vanish(total as int, 100);
    assert((total as int) * 100 == 100 * (total as int));
}

/// Cumulative targets are monotone in the index.
pub proof fn lemma_cumulative_monotone(total: u128, i: u64, j: u64, parts: u64)
    requires
        0 < parts,
        i <= j,
    ensures
        spec_cumulative_target(total, i, parts) <= spec_cumulative_target(total, j, parts),
{
    lemma_percent_monotone(i, j, parts);
    if total > 0 {
        lemma_mul_left_inequality(
            total as int,
            spec_bucket_percent(i, parts),
            spec_bucket_percent(j, parts),
        );
    } else {
        assert((total as int) * spec_bucket_percent(i, parts) == 0 && (total as int)
            * spec_bucket_percent(j, parts) == 0);
    }
    lemma_div_is_ordered(
        (total as int) * spec_bucket_percent(i, parts),
        (total as int) * spec_bucket_percent(j, parts),
        100,
    );
}

/// Completing the last part always lands exactly on the total: the final
/// cumulative target equals the total amount, whatever the rounding did to
/// the earlier buckets.
pub proof fn lemma_cumulative_complete(total: u128, parts: u64)
    requires
        0 < parts,
    ensures
        spec_cumulative_target(total, ((parts - 1) as u64), parts) == total,
{
    lemma_div_multiples_vanish(100, parts as int);
    assert(spec_bucket_percent(((parts - 1) as u64), parts) == 100);
    lemma_div_multiples_vanish(total as int, 100);
    assert((total as int) * 100 == 100 * (total as int));
}

/// A fill within tolerance never pays a negative slice: the cumulative
/// target for its index covers the amount already filled.
pub proof fn lemma_slice_nonneg(total: u128, index: u64, parts: u64, remaining: u128)
    requires
        0 < parts,
        index < parts,
        spec_amount_within_tolerance(total, index, parts, remaining),
    ensures
        spec_cumulative_target(total, index, parts) + remaining - total >= 0,
{
    if index == 0 {
        lemma_cumulative_bounds(total, 0, parts);
    } else {
        lemma_cumulative_monotone(total, ((index - 1) as u64), index, parts);
        lemma_cumulative_bounds(total, ((index - 1) as u64), parts);
    }
    lemma_div_nonincreasing(spec_marginal_target(total, index, parts), 100);
}

/// Filling the next index in sequence always satisfies the policy: when
/// the order is filled exactly to the previous cumulative target and the
/// index respects the sequencing rule, the remaining amount pays exactly
/// the expected marginal slice, which lies within any tolerance.
pub proof fn lemma_in_order_fill_valid(
    parts: u64,
    used: Seq<u64>,
    total: u128,
    index: u64,
    remaining: u128,
)
    requires
        0 < parts,
        index < parts,
        !used.contains(index),
        index as nat == used.len(),
        remaining == total - (if index == 0 {
            0int
        } else {
            spec_cumulative_target(total, ((index - 1) as u64), parts)
        }),
    ensures
        spec_fill_valid(parts, used, total, index, remaining),
{
    if index > 0 {
        lemma_cumulative_monotone(total, ((index - 1) as u64), index, parts);
        lemma_cumulative_bounds(total, ((index - 1) as u64), parts);
    } else {
        lemma_cumulative_bounds(total, 0, parts);
    }
    lemma_div_pos_is_pos(spec_marginal_target(total, index, parts), 100);
}

/// Cumulative target for an in-range index, computed without overflow.
pub fn cumulative_target(total: u128, index: u64, parts: u64) -> (r: u128)
    requires
        0 < parts,
        index < parts,
        (total as int) * 100 <= u128::MAX,
    ensures
        r == spec_cumulative_target(total, index, parts),
        r <= total,
{
    proof {
        lemma_percent_bounds(index, parts);
        lemma_cumulative_bounds(total, index, parts);
    }
    let idx1: u128 = (index as u128) + 1;
    let pct: u128 = (idx1 * 100) / (parts as u128);
    proof {
        if total > 0 {
            lemma_mul_left_inequality(total as int, pct as int, 100);
        } else {
            lemma_mul_by_zero_is_zero(pct as int);
        }
    }
    (total * pct) / 100
}

/// Expected marginal slice for an in-range index.
pub fn marginal_target(total: u128, index: u64, parts: u64) -> (r: u128)
    requires
        0 < parts,
        index < parts,
        (total as int) * 100 <= u128::MAX,
    ensures
        r == spec_marginal_target(total, index, parts),
        r <= total,
{
    let cum: u128 = cumulative_target(total, index, parts);
    if index == 0 {
        cum
    } else {
        let prev: u128 = cumulative_target(total, index - 1, parts);
        proof {
            lemma_cumulative_monotone(total, (index - 1) as u64, index, parts);
        }
        cum - prev
    }
}

/// Whether a vector of indices contains a given index.
pub fn contains_index(v: &Vec<u64>, x: u64) -> (r: bool)
    ensures
        r == v@.contains(x),
{
    let mut i: usize = 0;
    while i < v.len()
        invariant
            0 <= i <= v@.len(),
            forall|j: int| 0 <= j < i ==> v@[j] != x,
        decreases v@.len() - i,
    {
        if v[i] == x {
            return true;
        }
        i = i + 1;
    }
    false
}

/// The fill-validity policy: an in-range unused index that is the next in
/// sequence, paying a slice within one percent of the expected marginal
/// slice.
pub fn fill_valid(parts: u64, used: &Vec<u64>, total: u128, index: u64, remaining: u128) -> (r:
    bool)
    requires
        0 < parts,
        (total as int) * 100 <= u128::MAX,
    ensures
        r == spec_fill_valid(parts, used@, total, index, remaining),
{
    if index >= parts {
        return false;
    }
    if contains_index(used, index) {
        return false;
    }
    if index != used.len() as u64 {
        return false;
    }
    let cum: u128 = cumulative_target(total, index, parts);
    let marginal: u128 = marginal_target(total, index, parts);
    let tolerance: u128 = marginal / 100;
    proof {
        lemma_div_is_ordered(0, marginal as int, 100);
        lemma_div_pos_is_pos(marginal as int, 100);
        lemma_fundamental_div_mod(marginal as int, 100);
    }
    if remaining < total - cum {
        // The slice would be negative, below any non-negative lower bound.
        return false;
    }
    let slice: u128 = remaining - (total - cum);
    marginal - tolerance <= slice && slice <= marginal + tolerance
}

} // verus!
