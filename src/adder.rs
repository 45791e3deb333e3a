//! Half adder, full adder, ripple-carry adder of any width, and incrementer.

use vstd::arithmetic::power2::{lemma_pow2_unfold, pow2};
use vstd::prelude::*;

use crate::bits::{all_ones, bit_at, bit_val, bits_value, lemma_value_zero_extended, value_upto, width};
use crate::{and, or, xor};

verus! {

/// The (sum, carry) pair of adding three bits.
pub open spec fn full_add(a: bool, b: bool, c: bool) -> (bool, bool) {
    ((a != b) != c, (a && b) || (c && (a != b)))
}

/// The carry into position `i` when `a` and `b` are added by a ripple-carry
/// chain whose initial carry is 0.
pub open spec fn carry_into(a: Seq<bool>, b: Seq<bool>, i: nat) -> bool
    decreases i,
{
    if i == 0 {
        false
    } else {
        let k = i - 1;
        full_add(bit_at(a, k), bit_at(b, k), carry_into(a, b, k as nat)).1
    }
}

/// Sum bits of the ripple-carry addition of `a` and `b`, as wide as the wider operand.
pub open spec fn ripple_sum(a: Seq<bool>, b: Seq<bool>) -> Seq<bool> {
    Seq::new(
        width(a, b),
        |i: int| full_add(bit_at(a, i), bit_at(b, i), carry_into(a, b, i as nat)).0,
    )
}

/// The (sum, carry-out) of ripple-carry addition of `a` and `b`, the shorter
/// operand zero-extended.
pub open spec fn ripple_add(a: Seq<bool>, b: Seq<bool>) -> (Seq<bool>, bool) {
    (ripple_sum(a, b), carry_into(a, b, width(a, b)))
}

/// Half adder: `sum = a XOR b`, `carry = a AND b`.
pub fn half_adder(a: bool, b: bool) -> (r: (bool, bool))
    ensures
        r == (a != b, a && b),
        bit_val(a) + bit_val(b) == bit_val(r.0) + 2 * bit_val(r.1),
{
    let sum = xor(a, b);
    let carry = and(a, b);
    (sum, carry)
}

/// Full adder from two half adders and an OR: the two output bits encode the
/// number of inputs that are set.
pub fn full_adder(a: bool, b: bool, carry_in: bool) -> (r: (bool, bool))
    ensures
        r == full_add(a, b, carry_in),
        bit_val(a) + bit_val(b) + bit_val(carry_in) == bit_val(r.0) + 2 * bit_val(r.1),
{
    let (sum1, carry1) = half_adder(a, b);
    let (sum, carry2) = half_adder(sum1, carry_in);
    let carry_out = or(carry1, carry2);
    (sum, carry_out)
}

/// The ripple-carry chain adds: the sum bits of the lowest `i` positions and
/// the carry into position `i` together hold the sum of the operands' lowest
/// `i` bits.
pub proof fn lemma_ripple_value(a: Seq<bool>, b: Seq<bool>, i: nat)
    requires
        i <= width(a, b),
    ensures
        value_upto(ripple_sum(a, b), i) + bit_val(carry_into(a, b, i)) * pow2(i)
            == value_upto(a, i) + value_upto(b, i),
    decreases i,
{
    if i > 0 {
        let k = (i - 1) as nat;
        lemma_ripple_value(a, b, k);
        lemma_pow2_unfold(i);
        let x = bit_val(bit_at(a, k as int));
        let y = bit_val(bit_at(b, k as int));
        let c = bit_val(carry_into(a, b, k));
        let s = bit_val(bit_at(ripple_sum(a, b), k as int));
        let co = bit_val(carry_into(a, b, i));
        assert(x + y + c == s + 2 * co);
        let p = pow2(k);
        assert((x + y + c) * p == s * p + co * (2 * p)) by (nonlinear_arith)
            requires
                x + y + c == s + 2 * co,
        ;
        assert((x + y + c) * p == x * p + y * p + c * p) by (nonlinear_arith);
    }
}

/// Adds the arithmetic meaning to `ripple_add`: sum plus carry times 2^n is the
/// total of the two operands, where n is the width of the sum.
pub proof fn lemma_ripple_add_value(a: Seq<bool>, b: Seq<bool>)
    ensures
        bits_value(ripple_add(a, b).0) + bit_val(ripple_add(a, b).1) * pow2(width(a, b))
            == bits_value(a) + bits_value(b),
{
    let n = width(a, b);
    lemma_ripple_value(a, b, n);
    lemma_value_zero_extended(a, n);
    lemma_value_zero_extended(b, n);
}

/// Ripple-carry adder of any width. The result is as wide as the wider operand;
/// the shorter one is zero-extended. The carry out of the top position is
/// returned beside the sum, never appended to it.
pub fn n_bit_adder(a: &[bool], b: &[bool]) -> (r: (Vec<bool>, bool))
    ensures
        (r.0@, r.1) == ripple_add(a@, b@),
        r.0@.len() == width(a@, b@),
        bits_value(r.0@) + bit_val(r.1) * pow2(r.0@.len()) == bits_value(a@) + bits_value(b@),
{
    let n: usize = if a.len() >= b.len() {
        a.len()
    } else {
        b.len()
    };
    let mut sum: Vec<bool> = Vec::with_capacity(n);
    let mut carry = false;
    for i in 0..n
        invariant
            n == width(a@, b@),
            sum@ =~= ripple_sum(a@, b@).take(i as int),
            carry == carry_into(a@, b@, i as nat),
    {
        let bit_a = if i < a.len() {
            a[i]
        } else {
            false
        };
        let bit_b = if i < b.len() {
            b[i]
        } else {
            false
        };
        let (bit_sum, bit_carry) = full_adder(bit_a, bit_b, carry);
        sum.push(bit_sum);
        carry = bit_carry;
    }
    proof {
        assert(sum@ =~= ripple_sum(a@, b@));
        lemma_ripple_add_value(a@, b@);
    }
    (sum, carry)
}

/// Adding 1 carries out of the lowest `i` positions exactly when they are all 1.
proof fn lemma_increment_carry(a: Seq<bool>, i: nat)
    requires
        1 <= i <= a.len(),
    ensures
        carry_into(a, seq![true], i) == all_ones(a.take(i as int)),
    decreases i,
{
    let one: Seq<bool> = seq![true];
    if i == 1 {
        assert(carry_into(a, one, 0) == false);
        assert(a.take(1)[0] == a[0]);
    } else {
        let k = (i - 1) as nat;
        lemma_increment_carry(a, k);
        assert(!bit_at(one, k as int));
        assert(all_ones(a.take(i as int)) == (all_ones(a.take(k as int)) && a[k as int])) by {
            if all_ones(a.take(k as int)) && a[k as int] {
                assert forall|j: int| 0 <= j < i implies a.take(i as int)[j] by {
                    if j < k {
                        assert(a.take(k as int)[j] == a[j]);
                    }
                }
            }
            if all_ones(a.take(i as int)) {
                assert(a.take(i as int)[k as int] == a[k as int]);
                assert forall|j: int| 0 <= j < k implies a.take(k as int)[j] by {
                    assert(a.take(i as int)[j] == a[j]);
                }
            }
        }
    }
}

/// Incrementer: adds 1 (the one-bit vector `[1]`, zero-extended) with the
/// ripple-carry adder. An all-ones vector of any positive width wraps to all
/// zeros with overflow set; the empty vector gives `[1]` without overflow.
pub fn incrementer(a: &[bool]) -> (r: (Vec<bool>, bool))
    ensures
        (r.0@, r.1) == ripple_add(a@, seq![true]),
        r.0@.len() == if a@.len() == 0 { 1 } else { a@.len() },
        bits_value(r.0@) + bit_val(r.1) * pow2(r.0@.len()) == bits_value(a@) + 1,
        a@.len() > 0 ==> (r.1 <==> all_ones(a@)),
        a@.len() > 0 && all_ones(a@) ==> r.0@ == Seq::new(a@.len(), |i: int| false),
{
    let increment: [bool; 1] = [true];
    let r = n_bit_adder(a, &increment);
    proof {
        let one: Seq<bool> = seq![true];
        assert(increment@ =~= one);
        assert(bits_value(one) == 1) by {
            reveal_with_fuel(value_upto, 2);
            vstd::arithmetic::power2::lemma2_to64();
        }
        if a@.len() > 0 {
            lemma_increment_carry(a@, a@.len());
            assert(a@.take(a@.len() as int) =~= a@);
            if all_ones(a@) {
                assert forall|i: int| 0 <= i < a@.len() implies !r.0@[i] by {
                    if i > 0 {
                        lemma_increment_carry(a@, i as nat);
                        assert(all_ones(a@.take(i)));
                    }
                }
                assert(r.0@ =~= Seq::new(a@.len(), |i: int| false));
            }
        }
    }
    r
}

/// Addition is commutative: swapping the operands gives the same sum and the
/// same carry, for operands of equal length and, by zero-extension, of any
/// lengths.
pub proof fn lemma_adder_commutative(a: Seq<bool>, b: Seq<bool>)
    ensures
        ripple_add(a, b) == ripple_add(b, a),
{
    assert forall|i: nat| carry_into(a, b, i) == carry_into(b, a, i) by {
        lemma_carry_symmetric(a, b, i);
    }
    assert(ripple_sum(a, b) =~= ripple_sum(b, a));
}

proof fn lemma_carry_symmetric(a: Seq<bool>, b: Seq<bool>, i: nat)
    ensures
        carry_into(a, b, i) == carry_into(b, a, i),
    decreases i,
{
    if i > 0 {
        lemma_carry_symmetric(a, b, (i - 1) as nat);
    }
}

} // verus!
