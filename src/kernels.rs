use vstd::prelude::*;
use crate::circuit::{ControlledNotGate, PauliXGate, SwapGate, ToffoliGate};

verus! {

/// The amplitude index that `k` is exchanged with by a pairwise kernel:
/// indices whose `select` bits read `pattern`, or `pattern ^ flip`, are
/// exchanged with `k ^ flip`; all others stay.
pub open spec fn partner(k: u64, select: u64, pattern: u64, flip: u64) -> u64 {
    if (k & select) == pattern || (k & select) == (pattern ^ flip) {
        k ^ flip
    } else {
        k
    }
}

/// The bit of basis-state indices that holds qubit `q` of `n`: qubit 0 is
/// the most significant bit.
pub open spec fn qubit_mask(n: u64, q: u64) -> u64 {
    1u64 << ((n - 1 - q) as u64)
}

proof fn lemma_pair_bits(i: u64, select: u64, pattern: u64, flip: u64)
    requires
        (flip & select) == flip,
        flip != 0,
    ensures
        (i & select) == pattern ==> ((i ^ flip) & select) == (pattern ^ flip),
        (i & select) == (pattern ^ flip) ==> ((i ^ flip) & select) == pattern,
        ((i ^ flip) ^ flip) == i,
        (pattern ^ flip) != pattern,
        (i ^ flip) != i,
{
    assert((i & select) == pattern ==> ((i ^ flip) & select) == (pattern ^ flip)) by (bit_vector)
        requires (flip & select) == flip;
    assert((i & select) == (pattern ^ flip) ==> ((i ^ flip) & select) == pattern) by (bit_vector)
        requires (flip & select) == flip;
    assert(((i ^ flip) ^ flip) == i) by (bit_vector);
    assert((pattern ^ flip) != pattern) by (bit_vector)
        requires flip != 0;
    assert((i ^ flip) != i) by (bit_vector)
        requires flip != 0;
}

proof fn lemma_xor_in_range(i: u64, flip: u64, n: u64)
    requires
        n < 64,
        i < (1u64 << n),
        flip < (1u64 << n),
    ensures
        (i ^ flip) < (1u64 << n),
{
    assert((i ^ flip) < (1u64 << n)) by (bit_vector)
        requires n < 64, i < (1u64 << n), flip < (1u64 << n);
}

/// Exchanges the amplitudes of each index whose `select` bits read
/// `pattern` with those of its partner `index ^ flip`, each pair once.
pub fn permute_pairs<T: Copy>(amps: &mut Vec<T>, n: u64, select: u64, pattern: u64, flip: u64)
    requires
        n < 64,
        old(amps)@.len() == (1u64 << n) as nat,
        (flip & select) == flip,
        flip != 0,
        flip < (1u64 << n),
    ensures
        final(amps)@.len() == old(amps)@.len(),
        forall|k: u64| k < old(amps)@.len() ==> #[trigger] final(amps)@[k as int]
            == old(amps)@[partner(k, select, pattern, flip) as int],
{
    let dim = amps.len() as u64;
    let ghost a0 = amps@;
    let mut i: u64 = 0;
    while i < dim
        invariant
            n < 64,
            dim == (1u64 << n),
            a0.len() == dim,
            amps@.len() == dim,
            (flip & select) == flip,
            flip != 0,
            flip < dim,
            i <= dim,
            forall|k: u64| k < dim ==> #[trigger] amps@[k as int] == (
                if ((k & select) == pattern && k < i) || ((k & select) == (pattern ^ flip) && (k ^ flip) < i) {
                    a0[(k ^ flip) as int]
                } else {
                    a0[k as int]
                }),
        decreases dim - i,
    {
        if (i & select) == pattern {
            let j = i ^ flip;
            proof {
                lemma_xor_in_range(i, flip, n);
                lemma_pair_bits(i, select, pattern, flip);
            }
            let a = amps[i as usize];
            let b = amps[j as usize];
            amps.set(i as usize, b);
            amps.set(j as usize, a);
            proof {
                assert forall|k: u64| k < dim implies #[trigger] amps@[k as int] == (
                    if ((k & select) == pattern && k < i + 1) || ((k & select) == (pattern ^ flip) && (k ^ flip) < i + 1) {
                        a0[(k ^ flip) as int]
                    } else {
                        a0[k as int]
                    }) by {
                    lemma_pair_bits(k, select, pattern, flip);
                    if k == i {
                    } else if k == j {
                    } else {
                        if (k & select) == (pattern ^ flip) && (k ^ flip) == i {
                            assert(k == j);
                        }
                    }
                }
            }
        } else {
            proof {
                assert forall|k: u64| k < dim implies #[trigger] amps@[k as int] == (
                    if ((k & select) == pattern && k < i + 1) || ((k & select) == (pattern ^ flip) && (k ^ flip) < i + 1) {
                        a0[(k ^ flip) as int]
                    } else {
                        a0[k as int]
                    }) by {
                    lemma_pair_bits(k, select, pattern, flip);
                    if (k & select) == (pattern ^ flip) && (k ^ flip) == i {
                        lemma_pair_bits(i, select, pattern, flip);
                        assert((i & select) == pattern);
                    }
                }
            }
        }
        i = i + 1;
    }
    proof {
        assert forall|k: u64| k < a0.len() implies #[trigger] amps@[k as int]
            == a0[partner(k, select, pattern, flip) as int] by {
            lemma_pair_bits(k, select, pattern, flip);
            lemma_xor_in_range(k, flip, n);
        }
    }
}

/// A pairwise kernel only permutes amplitudes: every index's partner is in
/// range and has it back as partner, so each amplitude lands in exactly one
/// place and the sum of squared magnitudes is kept.
pub proof fn lemma_partner_is_involution(k: u64, select: u64, pattern: u64, flip: u64, n: u64)
    requires
        n < 64,
        k < (1u64 << n),
        (flip & select) == flip,
        flip != 0,
        flip < (1u64 << n),
    ensures
        partner(k, select, pattern, flip) < (1u64 << n),
        partner(partner(k, select, pattern, flip), select, pattern, flip) == k,
{
    lemma_pair_bits(k, select, pattern, flip);
    lemma_xor_in_range(k, flip, n);
    lemma_pair_bits(k ^ flip, select, pattern, flip);
}

proof fn lemma_mask_in_range(n: u64, q: u64)
    requires
        q < n < 64,
    ensures
        qubit_mask(n, q) != 0,
        qubit_mask(n, q) < (1u64 << n),
{
    let b = (n - 1 - q) as u64;
    assert((1u64 << b) != 0 && (1u64 << b) < (1u64 << n)) by (bit_vector)
        requires b < n, n < 64;
}

proof fn lemma_single_bit(k: u64, b: u64)
    requires
        b < 64,
    ensures
        partner(k, 1u64 << b, 0, 1u64 << b) == k ^ (1u64 << b),
{
    assert((k & (1u64 << b)) == 0 || (k & (1u64 << b)) == (0u64 ^ (1u64 << b))) by (bit_vector)
        requires b < 64;
}

proof fn lemma_controlled_bit(k: u64, bc: u64, bt: u64)
    requires
        bc < 64,
        bt < 64,
        bc != bt,
    ensures
        (((1u64 << bt) & ((1u64 << bc) | (1u64 << bt))) == (1u64 << bt)),
        partner(k, (1u64 << bc) | (1u64 << bt), 1u64 << bc, 1u64 << bt)
            == (if (k & (1u64 << bc)) != 0 { k ^ (1u64 << bt) } else { k }),
{
    assert(((1u64 << bt) & ((1u64 << bc) | (1u64 << bt))) == (1u64 << bt)) by (bit_vector);
    assert(((k & ((1u64 << bc) | (1u64 << bt))) == (1u64 << bc)
        || (k & ((1u64 << bc) | (1u64 << bt))) == ((1u64 << bc) ^ (1u64 << bt)))
        == ((k & (1u64 << bc)) != 0)) by (bit_vector)
        requires bc < 64, bt < 64, bc != bt;
}

proof fn lemma_swap_bits(k: u64, ba: u64, bb: u64)
    requires
        ba < 64,
        bb < 64,
        ba != bb,
    ensures
        ((((1u64 << ba) | (1u64 << bb)) & ((1u64 << ba) | (1u64 << bb))) == ((1u64 << ba) | (1u64 << bb))),
        ((1u64 << ba) | (1u64 << bb)) != 0,
        partner(k, (1u64 << ba) | (1u64 << bb), 1u64 << ba, (1u64 << ba) | (1u64 << bb))
            == (if ((k & (1u64 << ba)) != 0) != ((k & (1u64 << bb)) != 0) {
                k ^ ((1u64 << ba) | (1u64 << bb))
            } else {
                k
            }),
{
    assert((((1u64 << ba) | (1u64 << bb)) & ((1u64 << ba) | (1u64 << bb))) == ((1u64 << ba) | (1u64 << bb))) by (bit_vector);
    assert(((1u64 << ba) | (1u64 << bb)) != 0) by (bit_vector)
        requires ba < 64;
    assert(((k & ((1u64 << ba) | (1u64 << bb))) == (1u64 << ba)
        || (k & ((1u64 << ba) | (1u64 << bb))) == ((1u64 << ba) ^ ((1u64 << ba) | (1u64 << bb))))
        == (((k & (1u64 << ba)) != 0) != ((k & (1u64 << bb)) != 0))) by (bit_vector)
        requires ba < 64, bb < 64, ba != bb;
}

proof fn lemma_toffoli_bits(k: u64, b1: u64, b2: u64, bt: u64)
    requires
        b1 < 64,
        b2 < 64,
        bt < 64,
        b1 != b2,
        b1 != bt,
        b2 != bt,
    ensures
        (((1u64 << bt) & ((1u64 << b1) | (1u64 << b2) | (1u64 << bt))) == (1u64 << bt)),
        partner(k, (1u64 << b1) | (1u64 << b2) | (1u64 << bt), (1u64 << b1) | (1u64 << b2), 1u64 << bt)
            == (if (k & (1u64 << b1)) != 0 && (k & (1u64 << b2)) != 0 { k ^ (1u64 << bt) } else { k }),
{
    assert(((1u64 << bt) & ((1u64 << b1) | (1u64 << b2) | (1u64 << bt))) == (1u64 << bt)) by (bit_vector);
    assert(((k & ((1u64 << b1) | (1u64 << b2) | (1u64 << bt))) == ((1u64 << b1) | (1u64 << b2))
        || (k & ((1u64 << b1) | (1u64 << b2) | (1u64 << bt))) == (((1u64 << b1) | (1u64 << b2)) ^ (1u64 << bt)))
        == ((k & (1u64 << b1)) != 0 && (k & (1u64 << b2)) != 0)) by (bit_vector)
        requires b1 < 64, b2 < 64, bt < 64, b1 != b2, b1 != bt, b2 != bt;
}

proof fn lemma_masks_distinct(n: u64, a: u64, b: u64)
    requires
        a < n < 64,
        b < n,
        a != b,
    ensures
        qubit_mask(n, a) | qubit_mask(n, b) < (1u64 << n),
{
    let x = (n - 1 - a) as u64;
    let y = (n - 1 - b) as u64;
    assert(((1u64 << x) | (1u64 << y)) < (1u64 << n)) by (bit_vector)
        requires x < n, y < n, n < 64;
}

impl PauliXGate {
    /// Applies this gate to the `2^n` amplitudes of an `n`-qubit state: each
    /// amplitude trades places with the one whose index differs in the
    /// target bit.
    pub fn apply_to_amplitudes<T: Copy>(&self, amps: &mut Vec<T>, n: usize)
        requires
            self.target_qubit < n < 64,
            old(amps)@.len() == (1u64 << (n as u64)) as nat,
        ensures
            final(amps)@.len() == old(amps)@.len(),
            forall|k: u64| k < old(amps)@.len() ==> #[trigger] final(amps)@[k as int]
                == old(amps)@[(k ^ qubit_mask(n as u64, self.target_qubit as u64)) as int],
    {
        let m: u64 = 1u64 << ((n - 1 - self.target_qubit) as u64);
        proof {
            lemma_mask_in_range(n as u64, self.target_qubit as u64);
            assert((m & m) == m) by (bit_vector);
        }
        permute_pairs(amps, n as u64, m, 0, m);
        proof {
            assert forall|k: u64| k < old(amps)@.len() implies #[trigger] amps@[k as int]
                == old(amps)@[(k ^ qubit_mask(n as u64, self.target_qubit as u64)) as int] by {
                lemma_single_bit(k, (n - 1 - self.target_qubit) as u64);
            }
        }
    }
}

impl ControlledNotGate {
    /// Applies this gate to the `2^n` amplitudes of an `n`-qubit state: where
    /// the control bit is 1, an amplitude trades places with the one whose
    /// index differs in the target bit.
    pub fn apply_to_amplitudes<T: Copy>(&self, amps: &mut Vec<T>, n: usize)
        requires
            self.control_qubit < n < 64,
            self.target_qubit < n,
            self.control_qubit != self.target_qubit,
            old(amps)@.len() == (1u64 << (n as u64)) as nat,
        ensures
            final(amps)@.len() == old(amps)@.len(),
            forall|k: u64| k < old(amps)@.len() ==> #[trigger] final(amps)@[k as int]
                == old(amps)@[(if (k & qubit_mask(n as u64, self.control_qubit as u64)) != 0 {
                    k ^ qubit_mask(n as u64, self.target_qubit as u64)
                } else {
                    k
                }) as int],
    {
        let cm: u64 = 1u64 << ((n - 1 - self.control_qubit) as u64);
        let tm: u64 = 1u64 << ((n - 1 - self.target_qubit) as u64);
        proof {
            lemma_mask_in_range(n as u64, self.target_qubit as u64);
            lemma_controlled_bit(0, (n - 1 - self.control_qubit) as u64, (n - 1 - self.target_qubit) as u64);
        }
        permute_pairs(amps, n as u64, cm | tm, cm, tm);
        proof {
            assert forall|k: u64| k < old(amps)@.len() implies #[trigger] amps@[k as int]
                == old(amps)@[(if (k & qubit_mask(n as u64, self.control_qubit as u64)) != 0 {
                    k ^ qubit_mask(n as u64, self.target_qubit as u64)
                } else {
                    k
                }) as int] by {
                lemma_controlled_bit(k, (n - 1 - self.control_qubit) as u64, (n - 1 - self.target_qubit) as u64);
            }
        }
    }
}

impl SwapGate {
    /// Applies this gate to the `2^n` amplitudes of an `n`-qubit state: where
    /// the two qubits' bits differ, an amplitude trades places with the one
    /// whose index has both bits flipped.
    pub fn apply_to_amplitudes<T: Copy>(&self, amps: &mut Vec<T>, n: usize)
        requires
            self.qubit_a < n < 64,
            self.qubit_b < n,
            self.qubit_a != self.qubit_b,
            old(amps)@.len() == (1u64 << (n as u64)) as nat,
        ensures
            final(amps)@.len() == old(amps)@.len(),
            forall|k: u64| k < old(amps)@.len() ==> #[trigger] final(amps)@[k as int]
                == old(amps)@[(if ((k & qubit_mask(n as u64, self.qubit_a as u64)) != 0) != ((k & qubit_mask(n as u64, self.qubit_b as u64)) != 0) {
                    k ^ (qubit_mask(n as u64, self.qubit_a as u64) | qubit_mask(n as u64, self.qubit_b as u64))
                } else {
                    k
                }) as int],
    {
        let am: u64 = 1u64 << ((n - 1 - self.qubit_a) as u64);
        let bm: u64 = 1u64 << ((n - 1 - self.qubit_b) as u64);
        proof {
            lemma_masks_distinct(n as u64, self.qubit_a as u64, self.qubit_b as u64);
            lemma_swap_bits(0, (n - 1 - self.qubit_a) as u64, (n - 1 - self.qubit_b) as u64);
        }
        permute_pairs(amps, n as u64, am | bm, am, am | bm);
        proof {
            assert forall|k: u64| k < old(amps)@.len() implies #[trigger] amps@[k as int]
                == old(amps)@[(if ((k & qubit_mask(n as u64, self.qubit_a as u64)) != 0) != ((k & qubit_mask(n as u64, self.qubit_b as u64)) != 0) {
                    k ^ (qubit_mask(n as u64, self.qubit_a as u64) | qubit_mask(n as u64, self.qubit_b as u64))
                } else {
                    k
                }) as int] by {
                lemma_swap_bits(k, (n - 1 - self.qubit_a) as u64, (n - 1 - self.qubit_b) as u64);
            }
        }
    }
}

impl ToffoliGate {
    /// Applies this gate to the `2^n` amplitudes of an `n`-qubit state: where
    /// both control bits are 1, an amplitude trades places with the one whose
    /// index differs in the target bit.
    pub fn apply_to_amplitudes<T: Copy>(&self, amps: &mut Vec<T>, n: usize)
        requires
            self.control_qubit_1 < n < 64,
            self.control_qubit_2 < n,
            self.target_qubit < n,
            self.control_qubit_1 != self.control_qubit_2,
            self.control_qubit_1 != self.target_qubit,
            self.control_qubit_2 != self.target_qubit,
            old(amps)@.len() == (1u64 << (n as u64)) as nat,
        ensures
            final(amps)@.len() == old(amps)@.len(),
            forall|k: u64| k < old(amps)@.len() ==> #[trigger] final(amps)@[k as int]
                == old(amps)@[(if (k & qubit_mask(n as u64, self.control_qubit_1 as u64)) != 0 && (k & qubit_mask(n as u64, self.control_qubit_2 as u64)) != 0 {
                    k ^ qubit_mask(n as u64, self.target_qubit as u64)
                } else {
                    k
                }) as int],
    {
        let c1: u64 = 1u64 << ((n - 1 - self.control_qubit_1) as u64);
        let c2: u64 = 1u64 << ((n - 1 - self.control_qubit_2) as u64);
        let tm: u64 = 1u64 << ((n - 1 - self.target_qubit) as u64);
        proof {
            lemma_mask_in_range(n as u64, self.target_qubit as u64);
            lemma_toffoli_bits(0, (n - 1 - self.control_qubit_1) as u64, (n - 1 - self.control_qubit_2) as u64,
                (n - 1 - self.target_qubit) as u64);
        }
        permute_pairs(amps, n as u64, c1 | c2 | tm, c1 | c2, tm);
        proof {
            assert forall|k: u64| k < old(amps)@.len() implies #[trigger] amps@[k as int]
                == old(amps)@[(if (k & qubit_mask(n as u64, self.control_qubit_1 as u64)) != 0 && (k & qubit_mask(n as u64, self.control_qubit_2 as u64)) != 0 {
                    k ^ qubit_mask(n as u64, self.target_qubit as u64)
                } else {
                    k
                }) as int] by {
                lemma_toffoli_bits(k, (n - 1 - self.control_qubit_1) as u64, (n - 1 - self.control_qubit_2) as u64,
                    (n - 1 - self.target_qubit) as u64);
            }
        }
    }
}

} // verus!
