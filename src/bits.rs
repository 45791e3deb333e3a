//! The mathematical model of bit vectors: LSB-first sequences of booleans,
//! zero-extended past their end, and the unsigned value they encode.

use vstd::arithmetic::power2::pow2;
use vstd::prelude::*;

verus! {

/// A bit as the number 0 or 1.
pub open spec fn bit_val(b: bool) -> nat {
    if b {
        1
    } else {
        0
    }
}

/// Bit `i` of `s`, reading every position past the end (or before the start) as 0.
pub open spec fn bit_at(s: Seq<bool>, i: int) -> bool {
    0 <= i < s.len() && s[i]
}

/// The wider of two widths.
pub open spec fn width(a: Seq<bool>, b: Seq<bool>) -> nat {
    if a.len() >= b.len() {
        a.len()
    } else {
        b.len()
    }
}

/// The unsigned value of the lowest `n` bits of `s` (zero-extended).
pub open spec fn value_upto(s: Seq<bool>, n: nat) -> nat
    decreases n,
{
    if n == 0 {
        0
    } else {
        value_upto(s, (n - 1) as nat) + bit_val(bit_at(s, n - 1)) * pow2((n - 1) as nat)
    }
}

/// The unsigned value that the bit vector `s` encodes, LSB first.
pub open spec fn bits_value(s: Seq<bool>) -> nat {
    value_upto(s, s.len())
}

/// Every bit of `s` is 0 (true of the empty vector).
pub open spec fn all_zero(s: Seq<bool>) -> bool {
    forall|i: int| 0 <= i < s.len() ==> !s[i]
}

/// Every bit of `s` is 1 (true of the empty vector).
pub open spec fn all_ones(s: Seq<bool>) -> bool {
    forall|i: int| 0 <= i < s.len() ==> s[i]
}

/// The most significant bit of `s`, its two's-complement sign; 0 for the empty vector.
pub open spec fn sign_bit(s: Seq<bool>) -> bool {
    s.len() > 0 && s[s.len() - 1]
}

/// Zero-extending a vector does not change its value.
pub proof fn lemma_value_zero_extended(s: Seq<bool>, n: nat)
    requires
        n >= s.len(),
    ensures
        value_upto(s, n) == bits_value(s),
    decreases n,
{
    if n > s.len() {
        lemma_value_zero_extended(s, (n - 1) as nat);
    }
}

} // verus!
