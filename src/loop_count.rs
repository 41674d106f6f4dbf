//! Decomposition of the ate loop counter into the bits that the double-and-add walk visits.

use vstd::arithmetic::div_mod::lemma_div_denominator;
use vstd::arithmetic::power2::{lemma2_to64, lemma_pow2_unfold, pow2};
use vstd::prelude::*;
use vstd::std_specs::bits::u64_leading_zeros;

verus! {

/// Bit `i` of `v`, counting from the least significant bit.
pub open spec fn bit_of(v: nat, i: nat) -> bool {
    (v / pow2(i)) % 2 == 1
}

/// The low `n` bits of `v`, most significant first.
pub open spec fn msb_bits(v: nat, n: nat) -> Seq<bool> {
    Seq::new(n, |j: int| bit_of(v, (n - 1 - j) as nat))
}

/// Number of significant bits of `v`: zero for zero.
pub open spec fn bit_len(v: nat) -> nat
    decreases v,
{
    if v == 0 {
        0
    } else {
        1 + bit_len(v / 2)
    }
}

/// Bits of the limbs `limbs[k - 1], ..., limbs[0]`, all 64 of each, most significant first.
pub open spec fn lower_limb_bits(limbs: Seq<u64>, k: nat) -> Seq<bool>
    decreases k,
{
    if k == 0 {
        Seq::empty()
    } else {
        msb_bits(limbs[k - 1] as nat, 64) + lower_limb_bits(limbs, (k - 1) as nat)
    }
}

/// Bits of the most significant limb (stored last) below its leading one, most significant first.
pub open spec fn top_limb_bits(top: u64) -> Seq<bool> {
    if top == 0 {
        Seq::empty()
    } else {
        msb_bits(top as nat, (bit_len(top as nat) - 1) as nat)
    }
}

/// The bits that the walk visits, in order: the loop counter's binary expansion from the most
/// significant limb down, without the leading one of the top limb and without its padding.
pub open spec fn walked_bits_of(limbs: Seq<u64>) -> Seq<bool> {
    if limbs.len() == 0 {
        Seq::empty()
    } else {
        top_limb_bits(limbs.last()) + lower_limb_bits(limbs, (limbs.len() - 1) as nat)
    }
}

/// Number of set bits in a bit sequence.
pub open spec fn count_set(bits: Seq<bool>) -> nat
    decreases bits.len(),
{
    if bits.len() == 0 {
        0
    } else {
        count_set(bits.drop_last()) + if bits.last() {
            1nat
        } else {
            0nat
        }
    }
}

proof fn lemma_bit_len_leading_zeros(v: u64)
    ensures
        bit_len(v as nat) == 64 - u64_leading_zeros(v),
        bit_len(v as nat) <= 64,
    decreases v,
{
    reveal(u64_leading_zeros);
    if v != 0 {
        lemma_bit_len_leading_zeros(v / 2);
    }
}

proof fn lemma_next_bit(v: nat, i: nat)
    ensures
        v / pow2(i) / 2 == v / pow2(i + 1),
        pow2(i) > 0,
{
    lemma_pow2_unfold(i + 1);
    vstd::arithmetic::power2::lemma_pow2_pos(i);
    lemma_div_denominator(v as int, pow2(i) as int, 2);
    assert(pow2(i) * 2 == 2 * pow2(i)) by (nonlinear_arith);
}

/// Number of significant bits of `value`.
pub fn bit_length(value: u64) -> (r: u32)
    ensures
        r as nat == bit_len(value as nat),
        r <= 64,
{
    proof {
        lemma_bit_len_leading_zeros(value);
    }
    64 - value.leading_zeros()
}

/// The low `n` bits of `value`, most significant first.
pub fn limb_bits(value: u64, n: u32) -> (r: Vec<bool>)
    requires
        n <= 64,
    ensures
        r@ == msb_bits(value as nat, n as nat),
{
    let mut low: Vec<bool> = Vec::new();
    let mut tmp: u64 = value;
    let mut i: u32 = 0;
    proof {
        vstd::arithmetic::power2::lemma_pow2(0);
        vstd::arithmetic::power::lemma_pow0(2);
    }
    while i < n
        invariant
            i <= n <= 64,
            low@.len() == i,
            tmp as nat == value as nat / pow2(i as nat),
            forall|k: int| 0 <= k < i ==> low@[k] == bit_of(value as nat, k as nat),
        decreases n - i,
    {
        let b = tmp & 1 == 1;
        assert((tmp & 1 == 1) == (tmp % 2 == 1)) by (bit_vector);
        assert(tmp >> 1 == tmp / 2) by (bit_vector);
        low.push(b);
        proof {
            lemma_next_bit(value as nat, i as nat);
        }
        tmp = tmp >> 1;
        i = i + 1;
    }
    let mut r: Vec<bool> = Vec::new();
    let mut j: u32 = n;
    while j > 0
        invariant
            j <= n <= 64,
            low@.len() == n,
            forall|k: int| 0 <= k < n ==> low@[k] == bit_of(value as nat, k as nat),
            r@ =~= msb_bits(value as nat, n as nat).subrange(0, n - j),
        decreases j,
    {
        j = j - 1;
        r.push(low[j as usize]);
    }
    r
}

/// The bits that the double-and-add walk visits, in order, for a loop counter stored as limbs
/// with the least significant limb first.
pub fn walked_bits(limbs: &Vec<u64>) -> (r: Vec<bool>)
    ensures
        r@ == walked_bits_of(limbs@),
{
    let mut r: Vec<bool> = Vec::new();
    let len = limbs.len();
    if len == 0 {
        return r;
    }
    let top = limbs[len - 1];
    let top_len = bit_length(top);
    if top_len > 0 {
        r = limb_bits(top, top_len - 1);
    }
    let mut k: usize = len - 1;
    while k > 0
        invariant
            k < len == limbs@.len(),
            r@ + lower_limb_bits(limbs@, k as nat) == walked_bits_of(limbs@),
        decreases k,
    {
        let mut bits = limb_bits(limbs[k - 1], 64);
        proof {
            assert(lower_limb_bits(limbs@, k as nat) == bits@ + lower_limb_bits(limbs@, (k - 1) as nat));
            assert(r@ + bits@ + lower_limb_bits(limbs@, (k - 1) as nat) =~= r@ + (bits@ + lower_limb_bits(limbs@, (k - 1) as nat)));
        }
        r.append(&mut bits);
        k = k - 1;
    }
    assert(r@ =~= r@ + lower_limb_bits(limbs@, 0));
    r
}

} // verus!
