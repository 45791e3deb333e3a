//! A six-flag ALU over bit vectors of any width, and a fixed 16-bit form.
//!
//! The flags act in a fixed order: `zx` then `nx` condition `x`, `zy` then `ny`
//! condition `y`, `f` picks addition or bitwise AND, and `no` inverts the
//! result. The zero and negative flags are read off the output.

use vstd::prelude::*;

use crate::adder::{n_bit_adder, ripple_add};
use crate::bits::{all_zero, bit_at, sign_bit, width};
use crate::{and, not};

verus! {

/// An input after conditioning, `n` bits wide: each bit is read with
/// zero-extension, forced to 0 when `zero` is set, and then inverted when
/// `negate` is set.
pub open spec fn conditioned(s: Seq<bool>, n: nat, zero: bool, negate: bool) -> Seq<bool> {
    Seq::new(
        n,
        |i: int|
            {
                let b = !zero && bit_at(s, i);
                if negate {
                    !b
                } else {
                    b
                }
            },
    )
}

/// Position-wise AND of two vectors, as wide as the first.
pub open spec fn bitwise_and(a: Seq<bool>, b: Seq<bool>) -> Seq<bool> {
    Seq::new(a.len(), |i: int| a[i] && b[i])
}

/// Every bit of `s` inverted.
pub open spec fn inverted(s: Seq<bool>) -> Seq<bool> {
    Seq::new(s.len(), |i: int| !s[i])
}

/// The ALU's output vector for operands `x`, `y` and the six control flags.
pub open spec fn alu_out(
    x: Seq<bool>,
    y: Seq<bool>,
    zx: bool,
    nx: bool,
    zy: bool,
    ny: bool,
    f: bool,
    no: bool,
) -> Seq<bool> {
    let n = width(x, y);
    let xp = conditioned(x, n, zx, nx);
    let yp = conditioned(y, n, zy, ny);
    let computed = if f {
        ripple_add(xp, yp).0
    } else {
        bitwise_and(xp, yp)
    };
    if no {
        inverted(computed)
    } else {
        computed
    }
}

/// Conditions one ALU input to width `n`: zero-extends `v`, clears it when
/// `zero` is set, then inverts it when `negate` is set.
pub fn condition_input(v: &[bool], n: usize, zero: bool, negate: bool) -> (r: Vec<bool>)
    ensures
        r@ == conditioned(v@, n as nat, zero, negate),
{
    let mut r: Vec<bool> = Vec::with_capacity(n);
    for i in 0..n
        invariant
            r@ =~= conditioned(v@, n as nat, zero, negate).take(i as int),
    {
        let mut bit = if i >= v.len() || zero {
            false
        } else {
            v[i]
        };
        if negate {
            bit = not(bit);
        }
        r.push(bit);
    }
    proof {
        assert(r@ =~= conditioned(v@, n as nat, zero, negate));
    }
    r
}

/// The general ALU. The result is as wide as the wider operand, the shorter
/// one zero-extended. `zr` is set exactly when every output bit is 0 (so for
/// an empty output) and `ng` is the output's most significant bit (0 when it
/// is empty).
pub fn alu(
    x: &[bool],
    y: &[bool],
    zx: bool,
    nx: bool,
    zy: bool,
    ny: bool,
    f: bool,
    no: bool,
) -> (r: (Vec<bool>, bool, bool))
    ensures
        r.0@ == alu_out(x@, y@, zx, nx, zy, ny, f, no),
        r.0@.len() == width(x@, y@),
        r.1 == all_zero(r.0@),
        r.2 == sign_bit(r.0@),
{
    let n: usize = if x.len() >= y.len() {
        x.len()
    } else {
        y.len()
    };
    let x_processed = condition_input(x, n, zx, nx);
    let y_processed = condition_input(y, n, zy, ny);

    let computed: Vec<bool> = if f {
        let (sum, _carry) = n_bit_adder(x_processed.as_slice(), y_processed.as_slice());
        sum
    } else {
        let mut conj: Vec<bool> = Vec::with_capacity(n);
        for i in 0..n
            invariant
                x_processed@.len() == n,
                y_processed@.len() == n,
                conj@ =~= bitwise_and(x_processed@, y_processed@).take(i as int),
        {
            conj.push(and(x_processed[i], y_processed[i]));
        }
        proof {
            assert(conj@ =~= bitwise_and(x_processed@, y_processed@));
        }
        conj
    };

    let out: Vec<bool> = if no {
        let mut neg: Vec<bool> = Vec::with_capacity(n);
        for i in 0..n
            invariant
                computed@.len() == n,
                neg@ =~= inverted(computed@).take(i as int),
        {
            neg.push(not(computed[i]));
        }
        proof {
            assert(neg@ =~= inverted(computed@));
        }
        neg
    } else {
        computed
    };

    let mut is_zero = true;
    let mut i: usize = 0;
    while i < n
        invariant_except_break
            i <= n,
            out@.len() == n,
            forall|j: int| 0 <= j < i ==> !out@[j],
            is_zero,
        ensures
            out@.len() == n,
            is_zero == all_zero(out@),
        decreases n - i,
    {
        if out[i] {
            proof {
                assert(out@[i as int]);
            }
            is_zero = false;
            break;
        }
        i = i + 1;
    }

    let is_negative = if n > 0 {
        out[n - 1]
    } else {
        false
    };

    (out, is_zero, is_negative)
}

/// The ALU at a fixed width of 16 bits. The general result is copied into a
/// 16-bit word; since both operands are 16 bits wide it fits exactly.
pub fn alu16(
    x: &[bool; 16],
    y: &[bool; 16],
    zx: bool,
    nx: bool,
    zy: bool,
    ny: bool,
    f: bool,
    no: bool,
) -> (r: ([bool; 16], bool, bool))
    ensures
        r.0@ == alu_out(x@, y@, zx, nx, zy, ny, f, no),
        r.1 == all_zero(r.0@),
        r.2 == sign_bit(r.0@),
{
    let (out_vec, zr, ng) = alu(x, y, zx, nx, zy, ny, f, no);
    let mut out = [false; 16];
    for i in 0..16
        invariant
            out_vec@.len() == 16,
            forall|j: int| 0 <= j < i ==> out@[j] == out_vec@[j],
    {
        if i < out_vec.len() {
            out[i] = out_vec[i];
        }
    }
    proof {
        assert(out@ =~= out_vec@);
    }
    (out, zr, ng)
}

} // verus!
