//! The inequality circuit: a one-row constraint system over a prime field
//! that is satisfiable exactly when `score <= threshold` and the gap between
//! them fits in `DIFF_BITS` bits.
//!
//! The row holds the private `score`, the witness `diff`, the `DIFF_BITS`
//! bits of `diff`, and an advice copy of the public threshold. The gates are
//!
//! - copy:           `threshold_advice == instance`
//! - linear:         `threshold_advice - score - diff = 0`
//! - boolean:        `bit * (1 - bit) = 0` for every bit
//! - reconstruction: `diff - sum(bit_i * 2^i) = 0`
//!
//! all evaluated in the field of order `p`.
use vstd::arithmetic::div_mod::{
    lemma_fundamental_div_mod, lemma_fundamental_div_mod_converse, lemma_mul_mod_noop_right,
};
use vstd::prelude::*;

verus! {

/// Number of bits the difference `threshold - score` is decomposed into.
pub const DIFF_BITS: usize = 16;

/// `2^DIFF_BITS`: every accepted gap `threshold - score` is below it.
pub const DIFF_BOUND: u64 = 65536;

/// `2^n`.
pub open spec fn two_pow(n: nat) -> int
    decreases n,
{
    if n == 0 {
        1
    } else {
        2 * two_pow((n - 1) as nat)
    }
}

/// The integers modulo `p` have no zero divisors, which holds exactly when
/// `p` is prime.
pub open spec fn is_prime_field(p: int) -> bool {
    &&& p > 1
    &&& forall|a: int, b: int|
        0 <= a < p && 0 <= b < p && #[trigger] ((a * b) % p) == 0 ==> a == 0 || b == 0
}

/// The field is large enough that no `u64` difference wraps around in it.
pub open spec fn is_wide_field(p: int) -> bool {
    p > 2 * 0x1_0000_0000_0000_0000
}

/// `x` is the canonical representative of an element of the field of order `p`.
pub open spec fn in_field(p: int, x: int) -> bool {
    0 <= x < p
}

/// `sum(bits[i] * 2^i)`, the first bit being the least significant.
pub open spec fn weighted_sum(bits: Seq<int>) -> int
    decreases bits.len(),
{
    if bits.len() == 0 {
        0
    } else {
        weighted_sum(bits.drop_last()) + bits.last() * two_pow((bits.len() - 1) as nat)
    }
}

/// Bits as the field elements 0 and 1.
pub open spec fn bit_values(bits: Seq<bool>) -> Seq<int> {
    bits.map_values(|b: bool| if b { 1int } else { 0int })
}

/// Every gate of the circuit holds on the given row over the field of order
/// `p`, with `instance` in the public threshold column.
pub open spec fn constraints_hold(
    p: int,
    instance: int,
    score: int,
    diff: int,
    bits: Seq<int>,
    threshold_advice: int,
) -> bool {
    &&& in_field(p, score)
    &&& in_field(p, diff)
    &&& in_field(p, threshold_advice)
    &&& bits.len() == DIFF_BITS
    &&& forall|i: int| 0 <= i < bits.len() ==> in_field(p, #[trigger] bits[i])
    &&& threshold_advice == instance
    &&& (threshold_advice - score - diff) % p == 0
    &&& forall|i: int| 0 <= i < bits.len() ==> (#[trigger] bits[i] * (1 - bits[i])) % p == 0
    &&& (diff - weighted_sum(bits)) % p == 0
}

/// The inequality that the circuit is meant to prove, with its published
/// bound on the gap.
pub open spec fn within_bound(score: int, threshold: int) -> bool {
    score <= threshold && threshold - score < DIFF_BOUND
}

/// The cells of the circuit's row that an honest prover assigns.
#[derive(Clone, Debug)]
pub struct ScoreWitness {
    pub score: u64,
    pub diff: u64,
    pub diff_bits: Vec<bool>,
    pub threshold: u64,
}

proof fn lemma_two_pow_16()
    ensures
        two_pow(16) == DIFF_BOUND,
{
    reveal_with_fuel(two_pow, 17);
}

proof fn lemma_two_pow_positive(n: nat)
    ensures
        two_pow(n) >= 1,
    decreases n,
{
    if n > 0 {
        lemma_two_pow_positive((n - 1) as nat);
    }
}

proof fn lemma_two_pow_grows(m: nat, n: nat)
    requires
        m <= n,
    ensures
        two_pow(m) <= two_pow(n),
    decreases n - m,
{
    if m < n {
        lemma_two_pow_grows(m, (n - 1) as nat);
        lemma_two_pow_positive((n - 1) as nat);
    }
}

/// A multiple of `p` strictly between `-p` and `p` is zero.
proof fn lemma_small_multiple(x: int, p: int)
    requires
        p > 0,
        -p < x < p,
        x % p == 0,
    ensures
        x == 0,
{
    lemma_fundamental_div_mod(x, p);
    let q = x / p;
    assert(x == p * q);
    if q >= 1 {
        assert(p * q >= p) by (nonlinear_arith)
            requires
                q >= 1,
                p > 0,
        ;
    } else if q <= -1 {
        assert(p * q <= -p) by (nonlinear_arith)
            requires
                q <= -1,
                p > 0,
        ;
    } else {
        assert(q == 0);
        assert(p * q == 0) by (nonlinear_arith)
            requires
                q == 0,
        ;
    }
}

/// In a prime field, `b * (1 - b) = 0` forces `b` to be 0 or 1.
proof fn lemma_boolean_gate(p: int, b: int)
    requires
        is_prime_field(p),
        in_field(p, b),
        (b * (1 - b)) % p == 0,
    ensures
        b == 0 || b == 1,
{
    let c = (1 - b) % p;
    lemma_mul_mod_noop_right(b, 1 - b, p);
    assert((b * c) % p == 0);
    if c == 0 {
        lemma_small_multiple(1 - b, p);
    }
}

/// Bits that are each 0 or 1 weigh less than `2^len`.
proof fn lemma_weighted_sum_range(bits: Seq<int>)
    requires
        forall|i: int| 0 <= i < bits.len() ==> #[trigger] bits[i] == 0 || bits[i] == 1,
    ensures
        0 <= weighted_sum(bits) < two_pow(bits.len()),
    decreases bits.len(),
{
    if bits.len() > 0 {
        let rest = bits.drop_last();
        assert forall|i: int| 0 <= i < rest.len() implies #[trigger] rest[i] == 0 || rest[i] == 1 by {
            assert(rest[i] == bits[i]);
        }
        lemma_weighted_sum_range(rest);
        lemma_two_pow_positive(rest.len());
        assert(bits.last() == bits[bits.len() - 1]);
    }
}

/// Soundness: every row that satisfies the gates, for a score and a
/// threshold in the `u64` range, has `score <= threshold`, a gap below
/// `2^DIFF_BITS`, and `diff` equal to that gap. So when
/// `score > threshold`, or when the gap is `2^DIFF_BITS` or more, no
/// assignment satisfies the circuit.
pub proof fn lemma_constraints_sound(
    p: int,
    threshold: int,
    score: int,
    diff: int,
    bits: Seq<int>,
    threshold_advice: int,
)
    requires
        is_prime_field(p),
        is_wide_field(p),
        0 <= score <= u64::MAX,
        0 <= threshold <= u64::MAX,
        constraints_hold(p, threshold, score, diff, bits, threshold_advice),
    ensures
        within_bound(score, threshold),
        diff == threshold - score,
{
    assert forall|i: int| 0 <= i < bits.len() implies #[trigger] bits[i] == 0 || bits[i] == 1 by {
        lemma_boolean_gate(p, bits[i]);
    }
    lemma_weighted_sum_range(bits);
    lemma_two_pow_16();
    lemma_small_multiple(diff - weighted_sum(bits), p);
    lemma_small_multiple(threshold_advice - score - diff, p);
}

/// Completeness: for a score and threshold within the bound, the honest
/// row (the gap and its binary digits) satisfies the gates in every field
/// wide enough to hold `u64` values.
pub proof fn lemma_honest_row_satisfies(
    p: int,
    threshold: int,
    score: int,
    bits: Seq<int>,
)
    requires
        is_wide_field(p),
        0 <= score <= u64::MAX,
        0 <= threshold <= u64::MAX,
        within_bound(score, threshold),
        bits.len() == DIFF_BITS,
        forall|i: int| 0 <= i < bits.len() ==> #[trigger] bits[i] == 0 || bits[i] == 1,
        weighted_sum(bits) == threshold - score,
    ensures
        constraints_hold(p, threshold, score, threshold - score, bits, threshold),
{
    assert forall|i: int| 0 <= i < bits.len() implies (#[trigger] bits[i] * (1 - bits[i])) % p
        == 0 by {
        if bits[i] == 0 {
            assert(bits[i] * (1 - bits[i]) == 0);
        } else {
            assert(bits[i] * (1 - bits[i]) == 0);
        }
    }
}

/// The least significant `DIFF_BITS` binary digits of `x`, least
/// significant first.
pub fn decompose_bits(x: u64) -> (r: Vec<bool>)
    ensures
        r@.len() == DIFF_BITS,
        weighted_sum(bit_values(r@)) == (x as int) % (DIFF_BOUND as int),
{
    let mut r: Vec<bool> = Vec::new();
    let mut d: u64 = x;
    let mut i: usize = 0;
    while i < DIFF_BITS
        invariant
            0 <= i <= DIFF_BITS,
            r@.len() == i,
            weighted_sum(bit_values(r@)) + two_pow(i as nat) * d == x,
            0 <= weighted_sum(bit_values(r@)) < two_pow(i as nat),
        decreases DIFF_BITS - i,
    {
        let bit = d % 2 == 1;
        let ghost old_r = r@;
        let ghost old_d = d as int;
        r.push(bit);
        d = d / 2;
        let ghost b: int = if bit { 1 } else { 0 };
        let ghost t = two_pow(i as nat);
        proof {
            assert(bit_values(r@).drop_last() == bit_values(old_r));
            assert(bit_values(r@).last() == b);
            assert(weighted_sum(bit_values(r@)) == weighted_sum(bit_values(old_r)) + b * t);
            assert(two_pow((i + 1) as nat) == 2 * t);
            assert(old_d == 2 * (d as int) + b);
            assert(t * old_d == b * t + 2 * t * (d as int)) by (nonlinear_arith)
                requires
                    old_d == 2 * (d as int) + b,
            ;
            assert(weighted_sum(bit_values(r@)) < 2 * t) by (nonlinear_arith)
                requires
                    weighted_sum(bit_values(r@)) == weighted_sum(bit_values(old_r)) + b * t,
                    weighted_sum(bit_values(old_r)) < t,
                    b == 0 || b == 1,
                    t >= 1,
            ;
            assert(0 <= weighted_sum(bit_values(r@))) by (nonlinear_arith)
                requires
                    weighted_sum(bit_values(r@)) == weighted_sum(bit_values(old_r)) + b * t,
                    weighted_sum(bit_values(old_r)) >= 0,
                    b == 0 || b == 1,
                    t >= 1,
            ;
        }
        i += 1;
    }
    proof {
        lemma_two_pow_16();
        let ws = weighted_sum(bit_values(r@));
        assert(i == DIFF_BITS);
        assert(two_pow(i as nat) == DIFF_BOUND);
        assert(x as int == (d as int) * (DIFF_BOUND as int) + ws) by (nonlinear_arith)
            requires
                ws + two_pow(i as nat) * d == x,
                two_pow(i as nat) == DIFF_BOUND,
        ;
        lemma_fundamental_div_mod_converse(
            x as int,
            DIFF_BOUND as int,
            d as int,
            weighted_sum(bit_values(r@)),
        );
    }
    r
}

/// The row an honest prover assigns for `score` and `threshold`, or `None`
/// where no row satisfies the circuit: when `score > threshold` or the gap
/// is `2^DIFF_BITS` or more.
pub fn assign_witness(score: u64, threshold: u64) -> (r: Option<ScoreWitness>)
    ensures
        r is Some <==> within_bound(score as int, threshold as int),
        r matches Some(w) ==> {
            &&& w.score == score
            &&& w.threshold == threshold
            &&& w.diff == threshold - score
            &&& forall|p: int|
                is_wide_field(p) ==> #[trigger] constraints_hold(
                    p,
                    threshold as int,
                    score as int,
                    w.diff as int,
                    bit_values(w.diff_bits@),
                    threshold as int,
                )
        },
        r is None ==> forall|p: int, diff: int, bits: Seq<int>, threshold_advice: int|
            is_prime_field(p) && is_wide_field(p) ==> !#[trigger] constraints_hold(
                p,
                threshold as int,
                score as int,
                diff,
                bits,
                threshold_advice,
            ),
{
    if score > threshold || threshold - score >= DIFF_BOUND {
        proof {
            assert forall|p: int, diff: int, bits: Seq<int>, threshold_advice: int|
                is_prime_field(p) && is_wide_field(p) implies !#[trigger] constraints_hold(
                p,
                threshold as int,
                score as int,
                diff,
                bits,
                threshold_advice,
            ) by {
                if constraints_hold(p, threshold as int, score as int, diff, bits, threshold_advice) {
                    lemma_constraints_sound(
                        p,
                        threshold as int,
                        score as int,
                        diff,
                        bits,
                        threshold_advice,
                    );
                }
            }
        }
        return None;
    }
    let diff = threshold - score;
    let diff_bits = decompose_bits(diff);
    proof {
        vstd::arithmetic::div_mod::lemma_small_mod(diff as nat, DIFF_BOUND as nat);
        let bits = bit_values(diff_bits@);
        assert forall|i: int| 0 <= i < bits.len() implies #[trigger] bits[i] == 0 || bits[i]
            == 1 by {}
        assert forall|p: int| is_wide_field(p) implies #[trigger] constraints_hold(
            p,
            threshold as int,
            score as int,
            diff as int,
            bits,
            threshold as int,
        ) by {
            lemma_honest_row_satisfies(p, threshold as int, score as int, bits);
        }
    }
    Some(ScoreWitness { score, diff, diff_bits, threshold })
}

/// Checks the gates on a row of `u64` cells, as the circuit would in a
/// field wide enough to hold them.
pub fn check_witness(w: &ScoreWitness, instance: u64) -> (r: bool)
    ensures
        r == (w.diff_bits@.len() == DIFF_BITS && w.threshold == instance && w.score as int
            + w.diff as int == w.threshold as int && weighted_sum(bit_values(w.diff_bits@))
            == w.diff as int),
{
    if w.diff_bits.len() != DIFF_BITS || w.threshold != instance {
        return false;
    }
    if w.threshold < w.score || w.threshold - w.score != w.diff {
        return false;
    }
    let mut value: u64 = 0;
    let mut weight: u64 = 1;
    let mut i: usize = 0;
    proof {
        lemma_two_pow_16();
    }
    while i < DIFF_BITS
        invariant
            0 <= i <= DIFF_BITS,
            w.diff_bits@.len() == DIFF_BITS,
            value == weighted_sum(bit_values(w.diff_bits@.subrange(0, i as int))),
            weight == two_pow(i as nat),
            value < weight,
            weight <= DIFF_BOUND,
            two_pow(DIFF_BITS as nat) == DIFF_BOUND,
        decreases DIFF_BITS - i,
    {
        let ghost prefix = w.diff_bits@.subrange(0, i as int);
        let ghost next = w.diff_bits@.subrange(0, i + 1);
        proof {
            assert(next.drop_last() == prefix);
            assert(bit_values(next).drop_last() == bit_values(prefix));
            assert(bit_values(next).last() == (if w.diff_bits@[i as int] { 1int } else { 0int }));
            assert(two_pow((i + 1) as nat) == 2 * two_pow(i as nat));
            lemma_two_pow_grows((i + 1) as nat, DIFF_BITS as nat);
        }
        if w.diff_bits[i] {
            value = value + weight;
        }
        weight = weight * 2;
        i += 1;
    }
    proof {
        assert(w.diff_bits@.subrange(0, DIFF_BITS as int) == w.diff_bits@);
    }
    value == w.diff
}

} // verus!
