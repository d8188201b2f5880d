//! Arbitrary-precision natural numbers, just enough of them to evaluate a
//! rational power exactly: multiplication by a machine word and comparison.
//!
//! A number is a little-endian sequence of 64-bit limbs. Limbs beyond the end
//! of the sequence count as zero, so leading zero limbs are harmless.

use vstd::prelude::*;
use vstd::arithmetic::power::pow;

verus! {

/// The weight of one limb position: 2^64.
pub open spec fn radix() -> int {
    0x1_0000_0000_0000_0000
}

/// The limb at position `i`, zero outside the sequence.
pub open spec fn limb(s: Seq<u64>, i: int) -> int {
    if 0 <= i < s.len() {
        s[i] as int
    } else {
        0
    }
}

/// The number formed by the `n` lowest limbs of `s`.
pub open spec fn low(s: Seq<u64>, n: nat) -> int
    decreases n,
{
    if n == 0 {
        0
    } else {
        low(s, (n - 1) as nat) + limb(s, n - 1) * pow(radix(), (n - 1) as nat)
    }
}

/// The number that the limbs of `s` denote.
pub open spec fn value(s: Seq<u64>) -> int {
    low(s, s.len())
}

/// `pow` unfolds by one factor.
pub proof fn lemma_pow_step(b: int, e: nat)
    ensures
        pow(b, e + 1) == b * pow(b, e),
        pow(b, 0) == 1,
{
    reveal(pow);
}

/// A positive base has positive powers.
pub proof fn lemma_pow_pos(b: int, e: nat)
    requires
        b > 0,
    ensures
        pow(b, e) > 0,
    decreases e,
{
    lemma_pow_step(b, 0);
    if e > 0 {
        lemma_pow_pos(b, (e - 1) as nat);
        lemma_pow_step(b, (e - 1) as nat);
        assert(b * pow(b, (e - 1) as nat) > 0) by (nonlinear_arith)
            requires
                b > 0,
                pow(b, (e - 1) as nat) > 0,
        ;
    }
}

/// The `n` lowest limbs denote a number below `radix^n`.
pub proof fn lemma_low_bound(s: Seq<u64>, n: nat)
    ensures
        0 <= low(s, n) < pow(radix(), n),
    decreases n,
{
    lemma_pow_step(radix(), 0);
    if n > 0 {
        let m = (n - 1) as nat;
        lemma_low_bound(s, m);
        lemma_pow_step(radix(), m);
        lemma_pow_pos(radix(), m);
        let w = pow(radix(), m);
        let d = limb(s, n - 1);
        assert(0 <= d * w <= (radix() - 1) * w) by (nonlinear_arith)
            requires
                0 <= d <= radix() - 1,
                w > 0,
        ;
        assert((radix() - 1) * w + w == radix() * w) by (nonlinear_arith);
    }
}

/// Limbs beyond the end add nothing.
pub proof fn lemma_low_beyond(s: Seq<u64>, n: nat)
    requires
        n >= s.len(),
    ensures
        low(s, n) == value(s),
    decreases n,
{
    if n > s.len() {
        lemma_low_beyond(s, (n - 1) as nat);
        assert(limb(s, n - 1) == 0);
        assert(0 * pow(radix(), (n - 1) as nat) == 0);
    }
}

/// Two sequences that agree on their `n` lowest limbs agree on the number
/// those limbs denote.
pub proof fn lemma_low_agree(a: Seq<u64>, b: Seq<u64>, n: nat)
    requires
        forall|j: int| 0 <= j < n ==> limb(a, j) == limb(b, j),
    ensures
        low(a, n) == low(b, n),
    decreases n,
{
    if n > 0 {
        lemma_low_agree(a, b, (n - 1) as nat);
    }
}

/// Appending a limb adds that limb at the weight of its position.
pub proof fn lemma_value_push(s: Seq<u64>, x: u64)
    ensures
        value(s.push(x)) == value(s) + x * pow(radix(), s.len()),
{
    let t = s.push(x);
    assert forall|j: int| 0 <= j < s.len() implies limb(s, j) == limb(t, j) by {}
    lemma_low_agree(s, t, s.len());
    assert(limb(t, s.len() as int) == x);
}

/// Two sequences that agree on every limb from position `i` up to `n` differ
/// only by what their `i` lowest limbs denote.
pub proof fn lemma_high_agree(a: Seq<u64>, b: Seq<u64>, i: nat, n: nat)
    requires
        i <= n,
        forall|j: int| i <= j < n ==> limb(a, j) == limb(b, j),
    ensures
        low(a, n) - low(a, i) == low(b, n) - low(b, i),
    decreases n,
{
    if n > i {
        lemma_high_agree(a, b, i, (n - 1) as nat);
    }
}

/// A number of one limb.
pub fn from_u64(x: u64) -> (r: Vec<u64>)
    ensures
        value(r@) == x,
{
    let mut r: Vec<u64> = Vec::new();
    r.push(x);
    proof {
        lemma_value_push(Seq::<u64>::empty(), x);
        assert(r@ =~= Seq::<u64>::empty().push(x));
        lemma_pow_step(radix(), 0);
        assert(value(Seq::<u64>::empty()) == 0);
    }
    r
}

/// The product of a number and a machine word.
pub fn mul_small(a: &Vec<u64>, m: u64) -> (r: Vec<u64>)
    ensures
        value(r@) == value(a@) * m,
{
    let mut out: Vec<u64> = Vec::new();
    let mut carry: u64 = 0;
    let mut i: usize = 0;
    proof {
        lemma_pow_step(radix(), 0);
    }
    while i < a.len()
        invariant
            i <= a.len(),
            out.len() == i,
            value(out@) + carry * pow(radix(), i as nat) == low(a@, i as nat) * m,
        decreases a.len() - i,
    {
        let x: u64 = a[i];
        proof {
            assert(0 <= (x as int) * (m as int) <= 0xffff_ffff_ffff_ffff * 0xffff_ffff_ffff_ffff)
                by (nonlinear_arith)
                requires
                    0 <= x <= 0xffff_ffff_ffff_ffff,
                    0 <= m <= 0xffff_ffff_ffff_ffff,
            ;
        }
        let t: u128 = (x as u128) * (m as u128) + (carry as u128);
        let lo: u64 = (t % 0x1_0000_0000_0000_0000u128) as u64;
        let hi: u64 = (t / 0x1_0000_0000_0000_0000u128) as u64;
        proof {
            let w = pow(radix(), i as nat);
            lemma_value_push(out@, lo);
            lemma_pow_step(radix(), i as nat);
            assert(t == lo + hi * radix());
            assert(limb(a@, i as int) == x);
            // value(out.push(lo)) + hi * radix^(i+1)
            //   == value(out) + (lo + hi * radix) * w == value(out) + t * w
            assert(lo * w + hi * (radix() * w) == (x * m + carry) * w) by (nonlinear_arith)
                requires
                    x * m + carry == lo + hi * radix(),
            ;
            assert((low(a@, i as nat) + x * w) * m == low(a@, i as nat) * m + (x * m) * w)
                by (nonlinear_arith);
            assert((x * m + carry) * w == (x * m) * w + carry * w) by (nonlinear_arith);
        }
        out.push(lo);
        carry = hi;
        i += 1;
    }
    if carry != 0 {
        proof {
            lemma_value_push(out@, carry);
        }
        out.push(carry);
    } else {
        proof {
            assert(carry * pow(radix(), i as nat) == 0) by (nonlinear_arith)
                requires
                    carry == 0,
            ;
        }
    }
    out
}

/// The limb of `a` at position `i`, zero beyond the end.
fn limb_at(a: &Vec<u64>, i: usize) -> (x: u64)
    ensures
        x == limb(a@, i as int),
{
    if i < a.len() {
        a[i]
    } else {
        0
    }
}

/// Whether the first number is at most the second.
pub fn less_or_equal(a: &Vec<u64>, b: &Vec<u64>) -> (r: bool)
    ensures
        r == (value(a@) <= value(b@)),
{
    let n: usize = if a.len() >= b.len() {
        a.len()
    } else {
        b.len()
    };
    proof {
        lemma_low_beyond(a@, n as nat);
        lemma_low_beyond(b@, n as nat);
    }
    let mut i: usize = n;
    while i > 0
        invariant
            i <= n,
            low(a@, n as nat) == value(a@),
            low(b@, n as nat) == value(b@),
            forall|j: int| i <= j < n ==> limb(a@, j) == limb(b@, j),
        decreases i,
    {
        let x: u64 = limb_at(a, i - 1);
        let y: u64 = limb_at(b, i - 1);
        if x != y {
            proof {
                let k = (i - 1) as nat;
                let w = pow(radix(), k);
                lemma_high_agree(a@, b@, i as nat, n as nat);
                lemma_low_bound(a@, k);
                lemma_low_bound(b@, k);
                lemma_pow_pos(radix(), k);
                if x < y {
                    assert((x + 1) * w <= y * w) by (nonlinear_arith)
                        requires
                            x + 1 <= y,
                            w > 0,
                    ;
                    assert((x + 1) * w == x * w + w) by (nonlinear_arith);
                } else {
                    assert((y + 1) * w <= x * w) by (nonlinear_arith)
                        requires
                            y + 1 <= x,
                            w > 0,
                    ;
                    assert((y + 1) * w == y * w + w) by (nonlinear_arith);
                }
            }
            return x < y;
        }
        i -= 1;
    }
    proof {
        lemma_high_agree(a@, b@, 0, n as nat);
    }
    true
}

} // verus!
