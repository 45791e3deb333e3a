//! Digital logic built bottom-up from a single NAND gate: the derived gates,
//! half and full adders, a ripple-carry adder of any width, an incrementer and
//! a six-flag ALU.

use vstd::prelude::*;

pub mod adder;
pub mod alu;
pub mod bits;

verus! {

/// Two-input NAND, the universal gate every other gate is built from.
pub fn nand(a: bool, b: bool) -> (r: bool)
    ensures
        r == !(a && b),
{
    !(a && b)
}

/// NOT A = NAND(A, A).
pub fn not(a: bool) -> (r: bool)
    ensures
        r == !a,
{
    nand(a, a)
}

/// A AND B = NOT(NAND(A, B)).
pub fn and(a: bool, b: bool) -> (r: bool)
    ensures
        r == (a && b),
{
    let n = nand(a, b);
    nand(n, n)
}

/// A OR B = NAND(NOT A, NOT B).
pub fn or(a: bool, b: bool) -> (r: bool)
    ensures
        r == (a || b),
{
    let na = nand(a, a);
    let nb = nand(b, b);
    nand(na, nb)
}

/// A XOR B from four NAND gates.
pub fn xor(a: bool, b: bool) -> (r: bool)
    ensures
        r == (a != b),
{
    let t1 = nand(a, b);
    let t2 = nand(a, t1);
    let t3 = nand(b, t1);
    nand(t2, t3)
}

/// 2:1 multiplexer: `a` when `sel` is clear, `b` when it is set.
pub fn mux(sel: bool, a: bool, b: bool) -> (r: bool)
    ensures
        r == if sel { b } else { a },
{
    let not_sel = not(sel);
    let a_and_not_sel = and(a, not_sel);
    let b_and_sel = and(b, sel);
    or(a_and_not_sel, b_and_sel)
}

/// 1:2 demultiplexer: routes `d` to the first output when `sel` is clear and to
/// the second when it is set; the other output is 0.
pub fn demux(sel: bool, d: bool) -> (r: (bool, bool))
    ensures
        r == (if sel { (false, d) } else { (d, false) }),
{
    let not_sel = not(sel);
    let o0 = and(d, not_sel);
    let o1 = and(d, sel);
    (o0, o1)
}

} // verus!
