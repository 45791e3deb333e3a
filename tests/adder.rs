use nand_logic::adder::{full_adder, half_adder, incrementer, n_bit_adder};

#[test]
fn test_half_adder() {
    assert_eq!(half_adder(false, false), (false, false)); // 0 + 0 = 0, carry 0
    assert_eq!(half_adder(false, true), (true, false)); // 0 + 1 = 1, carry 0
    assert_eq!(half_adder(true, false), (true, false)); // 1 + 0 = 1, carry 0
    assert_eq!(half_adder(true, true), (false, true)); // 1 + 1 = 0, carry 1
}

#[test]
fn test_full_adder() {
    assert_eq!(full_adder(false, false, false), (false, false));
    assert_eq!(full_adder(false, false, true), (true, false));
    assert_eq!(full_adder(false, true, false), (true, false));
    assert_eq!(full_adder(false, true, true), (false, true));
    assert_eq!(full_adder(true, false, false), (true, false));
    assert_eq!(full_adder(true, false, true), (false, true));
    assert_eq!(full_adder(true, true, false), (false, true));
    assert_eq!(full_adder(true, true, true), (true, true));
}

#[test]
fn test_n_bit_adder() {
    // 0 + 0 = 0
    assert_eq!(
        n_bit_adder(&[false, false], &[false, false]),
        (vec![false, false], false)
    );
    // 1 + 1 = 2 (10 in binary)
    assert_eq!(n_bit_adder(&[true], &[true]), (vec![false], true));
    // 01 + 01 = 10
    assert_eq!(
        n_bit_adder(&[true, false], &[true, false]),
        (vec![false, true], false)
    );
    // 11 + 01 = 100
    assert_eq!(
        n_bit_adder(&[true, true], &[true, false]),
        (vec![false, false], true)
    );
    // operands of different lengths: 101 + 11 = 1000
    assert_eq!(
        n_bit_adder(&[true, false, true], &[true, true]),
        (vec![false, false, false], true)
    );
}

#[test]
fn test_incrementer() {
    // 0 + 1 = 1
    assert_eq!(incrementer(&[false]), (vec![true], false));
    // 1 + 1 = 10
    assert_eq!(incrementer(&[true]), (vec![false], true));
    // 10 + 1 = 11 (LSB first: [0, 1] -> [1, 1])
    assert_eq!(incrementer(&[false, true]), (vec![true, true], false));
    // 11 + 1 = 100
    assert_eq!(incrementer(&[true, true]), (vec![false, false], true));
    // 1111 + 1 = 10000, overflow
    assert_eq!(
        incrementer(&[true, true, true, true]),
        (vec![false, false, false, false], true)
    );
}

fn to_bits(mut v: u64, n: usize) -> Vec<bool> {
    let mut bits = Vec::new();
    for _ in 0..n {
        bits.push(v & 1 == 1);
        v >>= 1;
    }
    bits
}

fn from_bits(bits: &[bool]) -> u64 {
    bits.iter().rev().fold(0, |acc, &b| acc * 2 + u64::from(b))
}

#[test]
fn half_adder_all_pairs() {
    for a in [false, true] {
        for b in [false, true] {
            assert_eq!(half_adder(a, b), (a ^ b, a && b));
        }
    }
}

#[test]
fn full_adder_counts_inputs() {
    for a in [false, true] {
        for b in [false, true] {
            for c in [false, true] {
                let total = u8::from(a) + u8::from(b) + u8::from(c);
                let (s, co) = full_adder(a, b, c);
                assert_eq!(u8::from(s) + 2 * u8::from(co), total);
            }
        }
    }
}

#[test]
fn adder_width_policy_five_plus_three() {
    assert_eq!(
        n_bit_adder(&[true, false, true], &[true, true]),
        (vec![false, false, false], true)
    );
}

#[test]
fn adder_empty_operands() {
    assert_eq!(n_bit_adder(&[], &[]), (vec![], false));
}

#[test]
fn adder_shorter_first_operand() {
    // 3 + 12 = 15 in four bits
    assert_eq!(
        n_bit_adder(&[true, true], &[false, false, true, true]),
        (vec![true, true, true, true], false)
    );
}

#[test]
fn adder_matches_integer_sum() {
    for n in 0..6usize {
        for x in 0..(1u64 << n) {
            for y in 0..(1u64 << n) {
                let (sum, carry) = n_bit_adder(&to_bits(x, n), &to_bits(y, n));
                assert_eq!(sum.len(), n);
                assert_eq!(from_bits(&sum) + (u64::from(carry) << n), x + y);
            }
        }
    }
}

#[test]
fn adder_commutative_on_equal_lengths() {
    for x in 0..16u64 {
        for y in 0..16u64 {
            let a = to_bits(x, 4);
            let b = to_bits(y, 4);
            assert_eq!(n_bit_adder(&a, &b), n_bit_adder(&b, &a));
        }
    }
}

#[test]
fn incrementer_all_ones_wraps() {
    for n in 1..20usize {
        let ones = vec![true; n];
        assert_eq!(incrementer(&ones), (vec![false; n], true));
    }
}

#[test]
fn incrementer_empty_gives_one() {
    assert_eq!(incrementer(&[]), (vec![true], false));
}

#[test]
fn incrementer_adds_one() {
    for x in 0..31u64 {
        let (r, overflow) = incrementer(&to_bits(x, 5));
        assert_eq!(from_bits(&r), x + 1);
        assert!(!overflow);
    }
}
